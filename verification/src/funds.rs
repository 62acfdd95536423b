//! Balances in native currency, and the fee charged for adding an entry.
//!
//! Every identity has a balance; one that never received anything has 0.
//! Currency enters by `deposit` and afterwards only moves: the sum of all
//! balances fits in 64 bits at all times, so crediting a balance cannot
//! overflow.

use crate::address::Address;
use crate::error::ErrorCode;
use vstd::prelude::*;

verus! {

/// The balance of one identity.
pub struct Wallet {
    pub owner: Address,
    pub lamports: u64,
}

/// The balances of all identities.
pub struct Funds {
    wallets: Vec<Wallet>,
    supply: u64,
}

/// The sum of the balances.
spec fn total(wallets: Seq<Wallet>) -> nat
    decreases wallets.len(),
{
    if wallets.len() == 0 {
        0
    } else {
        total(wallets.drop_last()) + wallets.last().lamports as nat
    }
}

/// Whether a balance is on record for `who`.
spec fn owned(wallets: Seq<Wallet>, who: Address) -> bool {
    exists|i: int| 0 <= i < wallets.len() && (#[trigger] wallets[i]).owner == who
}

/// What `who` holds: the balance on record, or nothing.
spec fn held(wallets: Seq<Wallet>, who: Address) -> nat {
    if owned(wallets, who) {
        let i = choose|i: int| 0 <= i < wallets.len() && (#[trigger] wallets[i]).owner == who;
        wallets[i].lamports as nat
    } else {
        0
    }
}

/// No identity has two balances on record.
spec fn one_wallet_each(wallets: Seq<Wallet>) -> bool {
    forall|i: int, j: int|
        0 <= i < j < wallets.len() ==> (#[trigger] wallets[i]).owner != (
        #[trigger] wallets[j]).owner
}

proof fn lemma_held(wallets: Seq<Wallet>, i: int)
    requires
        one_wallet_each(wallets),
        0 <= i < wallets.len(),
    ensures
        owned(wallets, wallets[i].owner),
        held(wallets, wallets[i].owner) == wallets[i].lamports,
{
    let who = wallets[i].owner;
    let p = choose|p: int| 0 <= p < wallets.len() && (#[trigger] wallets[p]).owner == who;
    if p < i {
        assert(wallets[p].owner != wallets[i].owner);
    }
    if i < p {
        assert(wallets[i].owner != wallets[p].owner);
    }
}

proof fn lemma_total_push(wallets: Seq<Wallet>, wallet: Wallet)
    ensures
        total(wallets.push(wallet)) == total(wallets) + wallet.lamports,
{
    assert(wallets.push(wallet).drop_last() =~= wallets);
}

proof fn lemma_total_update(wallets: Seq<Wallet>, i: int, wallet: Wallet)
    requires
        0 <= i < wallets.len(),
    ensures
        total(wallets.update(i, wallet)) + wallets[i].lamports == total(wallets) + wallet.lamports,
    decreases wallets.len(),
{
    let changed = wallets.update(i, wallet);
    if i == wallets.len() - 1 {
        assert(changed.drop_last() =~= wallets.drop_last());
    } else {
        assert(changed.drop_last() =~= wallets.drop_last().update(i, wallet));
        lemma_total_update(wallets.drop_last(), i, wallet);
    }
}

proof fn lemma_total_bounds(wallets: Seq<Wallet>, i: int)
    requires
        0 <= i < wallets.len(),
    ensures
        wallets[i].lamports <= total(wallets),
    decreases wallets.len(),
{
    if i < wallets.len() - 1 {
        lemma_total_bounds(wallets.drop_last(), i);
    }
}

/// The balances after `amount` moved from `from` to `to`. Moving currency to
/// oneself changes nothing.
pub open spec fn moved(balances: Map<Address, nat>, from: Address, to: Address, amount: nat) -> Map<
    Address,
    nat,
> {
    if from == to {
        balances
    } else {
        balances.insert(from, (balances[from] - amount) as nat).insert(to, balances[to] + amount)
    }
}

impl View for Funds {
    type V = Map<Address, nat>;

    /// The balance of every identity.
    closed spec fn view(&self) -> Map<Address, nat> {
        Map::total(|who: Address| held(self.wallets@, who))
    }
}

impl Funds {
    /// The balances are well formed: one balance for each identity, and a sum
    /// that fits in 64 bits.
    pub closed spec fn wf(&self) -> bool {
        &&& one_wallet_each(self.wallets@)
        &&& total(self.wallets@) == self.supply
    }

    /// The sum of all balances.
    pub closed spec fn supply(&self) -> nat {
        self.supply as nat
    }

    /// Every identity has a balance, and none exceeds the supply.
    pub proof fn lemma_balances(&self, who: Address)
        requires
            self.wf(),
        ensures
            self@.dom() == Set::<Address>::full(),
            self@[who] <= self.supply(),
            self.supply() <= u64::MAX,
    {
        assert(self@.dom() =~= Set::<Address>::full());
        if owned(self.wallets@, who) {
            let i = choose|i: int|
                0 <= i < self.wallets@.len() && (#[trigger] self.wallets@[i]).owner == who;
            lemma_total_bounds(self.wallets@, i);
        }
    }

    /// Balances in which nobody holds anything.
    pub fn new() -> (funds: Funds)
        ensures
            funds.wf(),
            funds.supply() == 0,
            funds@ == Map::total(|who: Address| 0nat),
    {
        let funds = Funds { wallets: Vec::new(), supply: 0 };
        assert(funds@ =~= Map::total(|who: Address| 0nat));
        funds
    }

    /// Where the balance of `who` is kept, if `who` has one on record.
    fn find(&self, who: &Address) -> (found: Option<usize>)
        requires
            self.owners_distinct(),
        ensures
            match found {
                Some(i) => i < self.wallets@.len() && self.wallets@[i as int].owner == *who
                    && self@[*who] == self.wallets@[i as int].lamports,
                None => !owned(self.wallets@, *who) && self@[*who] == 0,
            },
    {
        let mut i: usize = 0;
        while i < self.wallets.len()
            invariant
                i <= self.wallets@.len(),
                self.owners_distinct(),
                forall|j: int| 0 <= j < i ==> (#[trigger] self.wallets@[j]).owner != *who,
            decreases self.wallets@.len() - i,
        {
            if self.wallets[i].owner == *who {
                proof {
                    lemma_held(self.wallets@, i as int);
                }
                return Some(i);
            }
            i += 1;
        }
        None
    }

    /// What `who` holds.
    pub fn balance(&self, who: &Address) -> (lamports: u64)
        requires
            self.wf(),
        ensures
            lamports == self@[*who],
    {
        match self.find(who) {
            Some(i) => self.wallets[i].lamports,
            None => 0,
        }
    }

    /// Sets what `who` holds. The sum of all balances changes by as much as
    /// the balance of `who` does.
    fn set(&mut self, who: &Address, lamports: u64)
        requires
            old(self).owners_distinct(),
        ensures
            final(self).owners_distinct(),
            final(self)@ == old(self)@.insert(*who, lamports as nat),
            final(self).sum_held() + old(self)@[*who] == old(self).sum_held() + lamports,
            final(self).supply == old(self).supply,
    {
        let ghost before = self.wallets@;
        let at = self.find(who);
        match at {
            Some(k) => {
                self.wallets[k].lamports = lamports;
                proof {
                    let after = self.wallets@;
                    let wallet = Wallet { owner: *who, lamports };
                    assert(after =~= before.update(k as int, wallet));
                    lemma_held(before, k as int);
                    lemma_total_update(before, k as int, wallet);
                    assert forall|i: int, j: int| 0 <= i < j < after.len() implies (
                    #[trigger] after[i]).owner != (#[trigger] after[j]).owner by {
                        assert(before[i].owner != before[j].owner);
                    }
                    assert forall|other: Address| held(after, other) == old(self)@.insert(
                        *who,
                        lamports as nat,
                    )[other] by {
                        if other == *who {
                            lemma_held(after, k as int);
                        } else if owned(before, other) {
                            let p = choose|p: int|
                                0 <= p < before.len() && (#[trigger] before[p]).owner == other;
                            lemma_held(before, p);
                            assert(after[p] == before[p]);
                            lemma_held(after, p);
                        } else {
                            if owned(after, other) {
                                let p = choose|p: int|
                                    0 <= p < after.len() && (#[trigger] after[p]).owner == other;
                                assert(before[p].owner == other);
                            }
                        }
                    }
                    assert(self@ =~= old(self)@.insert(*who, lamports as nat));
                }
            },
            None => {
                self.wallets.push(Wallet { owner: *who, lamports });
                proof {
                    let after = self.wallets@;
                    let wallet = Wallet { owner: *who, lamports };
                    assert(after =~= before.push(wallet));
                    lemma_total_push(before, wallet);
                    assert forall|i: int, j: int| 0 <= i < j < after.len() implies (
                    #[trigger] after[i]).owner != (#[trigger] after[j]).owner by {
                        if j < before.len() {
                            assert(before[i].owner != before[j].owner);
                        } else {
                            assert(before[i].owner != *who);
                        }
                    }
                    assert forall|other: Address| held(after, other) == old(self)@.insert(
                        *who,
                        lamports as nat,
                    )[other] by {
                        if other == *who {
                            lemma_held(after, after.len() - 1);
                        } else if owned(before, other) {
                            let p = choose|p: int|
                                0 <= p < before.len() && (#[trigger] before[p]).owner == other;
                            lemma_held(before, p);
                            assert(after[p] == before[p]);
                            lemma_held(after, p);
                        } else {
                            if owned(after, other) {
                                let p = choose|p: int|
                                    0 <= p < after.len() && (#[trigger] after[p]).owner == other;
                                assert(before[p].owner == other);
                            }
                        }
                    }
                    assert(self@ =~= old(self)@.insert(*who, lamports as nat));
                }
            },
        }
    }

    /// No identity has two balances.
    spec fn owners_distinct(&self) -> bool {
        one_wallet_each(self.wallets@)
    }

    /// The sum of what the identities hold.
    spec fn sum_held(&self) -> nat {
        total(self.wallets@)
    }

    /// Brings `amount` of new currency into the balance of `who`. Refused,
    /// with nothing changed, if the supply would no longer fit in 64 bits.
    pub fn deposit(&mut self, who: &Address, amount: u64) -> (accepted: bool)
        requires
            old(self).wf(),
        ensures
            final(self).wf(),
            accepted == (old(self).supply() + amount <= u64::MAX),
            accepted ==> final(self)@ == old(self)@.insert(*who, (old(self)@[*who] + amount) as nat)
                && final(self).supply() == old(self).supply() + amount,
            !accepted ==> final(self)@ == old(self)@ && final(self).supply() == old(self).supply(),
    {
        if amount > u64::MAX - self.supply {
            return false;
        }
        let held_before = self.balance(who);
        proof {
            self.lemma_balances(*who);
        }
        self.set(who, held_before + amount);
        self.supply = self.supply + amount;
        true
    }

    /// Charges the fee: moves `amount` from `payer` to `authority`, or
    /// refuses with `InsufficientBalance`, and changes nothing, if the payer
    /// holds less than `amount`.
    pub fn charge(&mut self, payer: &Address, authority: &Address, amount: u64) -> (r: Result<
        (),
        ErrorCode,
    >)
        requires
            old(self).wf(),
        ensures
            final(self).wf(),
            final(self).supply() == old(self).supply(),
            old(
                self)@[*payer] < amount ==> r == Err::<(),
                ErrorCode>(ErrorCode::InsufficientBalance,
            )
                && final(self)@ == old(self)@,
            old(self)@[*payer] >= amount ==> r is Ok && final(self)@ == moved(
                old(self)@,
                *payer,
                *authority,
                amount as nat,
            ),
    {
        let payer_holds = self.balance(payer);
        if payer_holds < amount {
            return Err(ErrorCode::InsufficientBalance);
        }
        if *payer == *authority {
            return Ok(());
        }
        self.set(payer, payer_holds - amount);
        let authority_holds = match self.find(authority) {
            Some(i) => self.wallets[i].lamports,
            None => 0,
        };
        proof {
            assert(self.sum_held() + amount == old(self).supply());
            if owned(self.wallets@, *authority) {
                let i = choose|i: int|
                    0 <= i < self.wallets@.len() && (#[trigger] self.wallets@[i]).owner
                        == *authority;
                lemma_total_bounds(self.wallets@, i);
            }
        }
        self.set(authority, authority_holds + amount);
        Ok(())
    }
}

} // verus!
