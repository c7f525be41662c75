//! The ledger of spent nonces.
//!
//! An authorizer approves each payroll run under a number that it uses once.
//! The ledger holds every `(authorizer, nonce)` pair that a recorded receipt
//! has spent. Pairs are only ever added.

use vstd::prelude::*;

verus! {

/// A receipt, which spends one nonce of one authorizer.
pub trait SpendsNonce: Sized {
    /// The `(authorizer, nonce)` pair that the receipt spends.
    spec fn spent(&self) -> (Seq<char>, u64);

    /// The authorizer whose nonce the receipt spends.
    fn spender(&self) -> (id: &String)
        ensures
            id@ == self.spent().0,
    ;

    /// The nonce that the receipt spends.
    fn spent_nonce(&self) -> (nonce: u64)
        ensures
            nonce == self.spent().1,
    ;
}

/// The pairs that the receipts spend.
pub open spec fn spent_by<T: SpendsNonce>(receipts: Seq<T>) -> Set<(Seq<char>, u64)> {
    Set::new(
        |key: (Seq<char>, u64)|
            exists|i: int| 0 <= i < receipts.len() && #[trigger] receipts[i].spent() == key,
    )
}

/// No two of the receipts spend the same pair.
pub open spec fn spends_distinct<T: SpendsNonce>(receipts: Seq<T>) -> bool {
    forall|i: int, j: int|
        0 <= i < j < receipts.len() ==> receipts[i].spent() != receipts[j].spent()
}

/// Some pair of the log is `key`.
spec fn occurs(log: Seq<(String, u64)>, key: (Seq<char>, u64)) -> bool {
    exists|i: int| 0 <= i < log.len() && #[trigger] log[i]@ == key
}

/// The spent `(authorizer, nonce)` pairs, in the order in which they were
/// spent.
pub struct NonceLedger {
    spent: Vec<(String, u64)>,
}

impl View for NonceLedger {
    type V = Set<(Seq<char>, u64)>;

    closed spec fn view(&self) -> Set<(Seq<char>, u64)> {
        Set::new(|key: (Seq<char>, u64)| occurs(self.spent@, key))
    }
}

impl NonceLedger {
    /// A ledger in which nothing is spent.
    pub fn new() -> (ledger: Self)
        ensures
            ledger@ == Set::<(Seq<char>, u64)>::empty(),
    {
        NonceLedger { spent: Vec::new() }
    }

    /// Whether `authorizer_id` has spent `nonce`.
    pub fn contains(&self, authorizer_id: &str, nonce: u64) -> (spent: bool)
        ensures
            spent == self@.contains((authorizer_id@, nonce)),
    {
        let authorizer = authorizer_id.to_owned();
        let mut i: usize = 0;
        while i < self.spent.len()
            invariant
                i <= self.spent@.len(),
                authorizer@ == authorizer_id@,
                forall|k: int| 0 <= k < i ==> self.spent@[k]@ != (authorizer_id@, nonce),
            decreases self.spent@.len() - i,
        {
            if self.spent[i].1 == nonce && self.spent[i].0 == authorizer {
                assert(self.spent@[i as int]@ == (authorizer_id@, nonce));
                return true;
            }
            i += 1;
        }
        false
    }

    /// Spends `nonce` for `authorizer_id`.
    pub fn insert(&mut self, authorizer_id: String, nonce: u64)
        ensures
            final(self)@ == old(self)@.insert((authorizer_id@, nonce)),
    {
        let ghost before = self.spent@;
        self.spent.push((authorizer_id, nonce));
        proof {
            let key = (authorizer_id@, nonce);
            let after = self.spent@;
            assert(after[before.len() as int]@ == key);
            assert forall|other: (Seq<char>, u64)|
                occurs(after, other) <==> (other == key || occurs(before, other)) by {
                if occurs(before, other) {
                    let i = choose|i: int| 0 <= i < before.len() && #[trigger] before[i]@ == other;
                    assert(after[i]@ == other);
                }
                if occurs(after, other) {
                    let i = choose|i: int| 0 <= i < after.len() && #[trigger] after[i]@ == other;
                    if i < before.len() {
                        assert(before[i]@ == other);
                    }
                }
            }
            assert(self@ =~= old(self)@.insert(key));
        }
    }

    /// The ledger of what `receipts` spend, unless two of them spend the same
    /// pair.
    pub fn of_receipts<T: SpendsNonce>(receipts: &Vec<T>) -> (ledger: Option<Self>)
        ensures
            match ledger {
                Some(ledger) => spends_distinct(receipts@) && ledger@ == spent_by(receipts@),
                None => !spends_distinct(receipts@),
            },
    {
        let mut ledger = NonceLedger::new();
        let mut j: usize = 0;
        while j < receipts.len()
            invariant
                j <= receipts@.len(),
                spends_distinct(receipts@.take(j as int)),
                ledger@ == spent_by(receipts@.take(j as int)),
            decreases receipts@.len() - j,
        {
            let ghost done = receipts@.take(j as int);
            let ghost next = receipts@.take(j + 1);
            let receipt = &receipts[j];
            if ledger.contains(receipt.spender().as_str(), receipt.spent_nonce()) {
                proof {
                    let i = choose|i: int|
                        0 <= i < done.len() && #[trigger] done[i].spent() == receipt.spent();
                    assert(receipts@[i].spent() == receipts@[j as int].spent());
                }
                return None;
            }
            ledger.insert(receipt.spender().clone(), receipt.spent_nonce());
            proof {
                assert forall|a: int, b: int| 0 <= a < b < next.len() implies next[a].spent()
                    != next[b].spent() by {
                    if b < j {
                        assert(done[a].spent() != done[b].spent());
                    } else {
                        assert(done[a].spent() == next[a].spent());
                    }
                }
                assert forall|key: (Seq<char>, u64)|
                    spent_by(next).contains(key) <==> (key == receipt.spent() || spent_by(
                        done,
                    ).contains(key)) by {
                    if spent_by(done).contains(key) {
                        let i = choose|i: int|
                            0 <= i < done.len() && #[trigger] done[i].spent() == key;
                        assert(next[i].spent() == key);
                    }
                    if spent_by(next).contains(key) {
                        let i = choose|i: int|
                            0 <= i < next.len() && #[trigger] next[i].spent() == key;
                        if i < j {
                            assert(done[i].spent() == key);
                        }
                    }
                    if key == receipt.spent() {
                        assert(next[j as int].spent() == key);
                    }
                }
                assert(ledger@ =~= spent_by(next));
            }
            j += 1;
        }
        assert(receipts@.take(j as int) =~= receipts@);
        Some(ledger)
    }
}

} // verus!
