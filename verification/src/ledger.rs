//! The ledger: every storage cell of one program, and the balances of the
//! identities that deal with it.
//!
//! A program keeps at most one control record, any number of entries and any
//! number of schemas, each in a cell of its own. What the control record and
//! the entries hold is up to the program.

use crate::address::Address;
use crate::error::ErrorCode;
use crate::funds::Funds;
use crate::funds::moved;
use crate::schema::SchemaData;
use crate::schema::SchemaDataView;
use crate::store::AddressMap;
use vstd::prelude::*;

verus! {

/// The state of a ledger as a mathematical value.
pub struct LedgerView<C, E> {
    /// The program that owns the cells: every address is derived under it.
    pub program_id: Address,
    /// The address of the cell that holds the control record, once there is
    /// one.
    pub config_cell: Option<Address>,
    /// The control record, once there is one.
    pub config: Option<C>,
    /// The entries, each under the address of its cell.
    pub entries: Map<Address, E>,
    /// The schemas, each under the address of its cell.
    pub schemas: Map<Address, SchemaDataView>,
    /// What every identity holds.
    pub balances: Map<Address, nat>,
    /// All the currency that was ever deposited: the sum of all balances.
    pub supply: nat,
}

impl<C, E> LedgerView<C, E> {
    /// The state before anything happened: no cell is occupied and nobody
    /// holds anything.
    pub open spec fn empty(program_id: Address) -> LedgerView<C, E> {
        LedgerView {
            program_id,
            config_cell: None,
            config: None,
            entries: Map::empty(),
            schemas: Map::empty(),
            balances: Map::total(|who: Address| 0nat),
            supply: 0,
        }
    }

    /// Whether the control record lives at `address`.
    pub open spec fn holds_config_at(self, address: Address) -> bool {
        self.config is Some && self.config_cell == Some(address)
    }

    /// Whether some record lives at `address`.
    pub open spec fn occupied(self, address: Address) -> bool {
        self.entries.contains_key(address) || self.schemas.contains_key(address)
            || self.holds_config_at(address)
    }

    /// What `who` holds.
    pub open spec fn balance(self, who: Address) -> nat {
        self.balances[who]
    }

    /// The cells and balances hang together: the control record has a cell
    /// exactly when it exists, no cell holds two records, every identity has
    /// a balance, and all the currency there is fits in 64 bits.
    pub open spec fn consistent(self) -> bool {
        &&& self.config is Some <==> self.config_cell is Some
        &&& forall|address: Address| #[trigger]
            self.entries.contains_key(address) ==> !self.schemas.contains_key(address)
                && !self.holds_config_at(address)
        &&& forall|address: Address| #[trigger]
            self.schemas.contains_key(address) ==> !self.holds_config_at(address)
        &&& self.balances.dom() == Set::<Address>::full()
        &&& self.supply <= u64::MAX
    }
}

/// The cell of the control record: where it is and what it holds.
struct ConfigCell<C> {
    address: Address,
    record: C,
}

/// Every storage cell of one program, and the balances around it.
pub struct Ledger<C, E> {
    program_id: Address,
    config: Option<ConfigCell<C>>,
    entries: AddressMap<E>,
    schemas: AddressMap<SchemaData>,
    funds: Funds,
}

impl<C: View, E: View> View for Ledger<C, E> {
    type V = LedgerView<C::V, E::V>;

    closed spec fn view(&self) -> LedgerView<C::V, E::V> {
        LedgerView {
            program_id: self.program_id,
            config_cell: match self.config {
                Some(cell) => Some(cell.address),
                None => None,
            },
            config: match self.config {
                Some(cell) => Some(cell.record@),
                None => None,
            },
            entries: self.entries@,
            schemas: self.schemas@,
            balances: self.funds@,
            supply: self.funds.supply(),
        }
    }
}

impl<C: View, E: View> Ledger<C, E> {
    /// The ledger is well formed: its cells are stored one for each address,
    /// its balances add up, and its state is consistent.
    pub closed spec fn wf(&self) -> bool {
        &&& self.entries.wf()
        &&& self.schemas.wf()
        &&& self.funds.wf()
        &&& self@.consistent()
    }

    /// A well-formed ledger is in a consistent state.
    pub proof fn lemma_consistent(&self)
        requires
            self.wf(),
        ensures
            self@.consistent(),
    {
    }

    /// The ledger of a program that has stored nothing yet.
    pub fn new(program_id: Address) -> (ledger: Ledger<C, E>)
        ensures
            ledger.wf(),
            ledger@ == LedgerView::<C::V, E::V>::empty(program_id),
    {
        let ledger = Ledger {
            program_id,
            config: None,
            entries: AddressMap::new(),
            schemas: AddressMap::new(),
            funds: Funds::new(),
        };
        proof {
            ledger.funds.lemma_balances(program_id);
        }
        ledger
    }

    /// The program that owns the cells.
    pub fn program_id(&self) -> (id: Address)
        ensures
            id == self@.program_id,
    {
        self.program_id
    }

    /// The control record, once there is one.
    pub fn config(&self) -> (r: Option<&C>)
        ensures
            match r {
                Some(config) => self@.config == Some(config@),
                None => self@.config is None,
            },
    {
        match &self.config {
            Some(cell) => Some(&cell.record),
            None => None,
        }
    }

    /// Whether the control record lives at `address`.
    pub fn holds_config_at(&self, address: &Address) -> (r: bool)
        ensures
            r == self@.holds_config_at(*address),
    {
        match &self.config {
            Some(cell) => cell.address == *address,
            None => false,
        }
    }

    /// The entry in the cell at `address`, if one lives there.
    pub fn entry(&self, address: &Address) -> (r: Option<&E>)
        requires
            self.wf(),
        ensures
            match r {
                Some(entry) => self@.entries.contains_key(*address) && self@.entries[*address]
                    == entry@,
                None => !self@.entries.contains_key(*address),
            },
    {
        self.entries.get(address)
    }

    /// The schema in the cell at `address`, if one lives there.
    pub fn schema(&self, address: &Address) -> (r: Option<&SchemaData>)
        requires
            self.wf(),
        ensures
            match r {
                Some(schema) => self@.schemas.contains_key(*address) && self@.schemas[*address]
                    == schema@,
                None => !self@.schemas.contains_key(*address),
            },
    {
        self.schemas.get(address)
    }

    /// How many entries the ledger holds.
    pub fn entry_count(&self) -> (n: usize)
        requires
            self.wf(),
        ensures
            self@.entries.dom().finite(),
            n == self@.entries.dom().len(),
    {
        self.entries.len()
    }

    /// How many schemas the ledger holds.
    pub fn schema_count(&self) -> (n: usize)
        requires
            self.wf(),
        ensures
            self@.schemas.dom().finite(),
            n == self@.schemas.dom().len(),
    {
        self.schemas.len()
    }

    /// What `who` holds.
    pub fn balance(&self, who: &Address) -> (lamports: u64)
        requires
            self.wf(),
        ensures
            lamports == self@.balance(*who),
    {
        self.funds.balance(who)
    }

    /// Whether some record lives at `address`.
    pub fn occupied(&self, address: &Address) -> (r: bool)
        requires
            self.wf(),
        ensures
            r == self@.occupied(*address),
    {
        self.holds_config_at(address) || self.entries.contains(address) || self.schemas.contains(
            address,
        )
    }

    /// Brings `amount` of new currency into the balance of `who`. Refused,
    /// with nothing changed, if the sum of all balances would no longer fit
    /// in 64 bits.
    pub fn deposit(&mut self, who: &Address, amount: u64) -> (accepted: bool)
        requires
            old(self).wf(),
        ensures
            final(self).wf(),
            accepted == (old(self)@.supply + amount <= u64::MAX),
            accepted ==> final(self)@ == (LedgerView {
                balances: old(self)@.balances.insert(
                    *who,
                    (old(self)@.balance(*who) + amount) as nat,
                ),
                supply: (old(self)@.supply + amount) as nat,
                ..old(self)@
            }),
            !accepted ==> final(self)@ == old(self)@,
    {
        let accepted = self.funds.deposit(who, amount);
        proof {
            self.funds.lemma_balances(*who);
        }
        accepted
    }

    /// Loads a control record, as it was read from storage, into the cell at
    /// `address`. Refused, with nothing changed, if the ledger holds a
    /// control record already or another record lives in that cell.
    pub fn load_config(&mut self, address: Address, record: C) -> (loaded: bool)
        requires
            old(self).wf(),
        ensures
            final(self).wf(),
            loaded == (old(self)@.config is None && !old(self)@.occupied(address)),
            loaded ==> final(self)@ == (LedgerView {
                config_cell: Some(address),
                config: Some(record@),
                ..old(self)@
            }),
            !loaded ==> final(self)@ == old(self)@,
    {
        if self.config().is_some() || self.occupied(&address) {
            return false;
        }
        self.create_config(address, record);
        true
    }

    /// Loads an entry, as it was read from storage, into the cell at
    /// `address`. Refused, with nothing changed, if a record lives in that
    /// cell already.
    pub fn load_entry(&mut self, address: Address, entry: E) -> (loaded: bool)
        requires
            old(self).wf(),
        ensures
            final(self).wf(),
            loaded == !old(self)@.occupied(address),
            loaded ==> final(self)@ == (LedgerView {
                entries: old(self)@.entries.insert(address, entry@),
                ..old(self)@
            }),
            !loaded ==> final(self)@ == old(self)@,
    {
        if self.occupied(&address) {
            return false;
        }
        self.put_entry(address, entry);
        true
    }

    /// Loads a schema, as it was read from storage, into the cell at
    /// `address`. Refused, with nothing changed, if a record lives in that
    /// cell already.
    pub fn load_schema(&mut self, address: Address, schema: SchemaData) -> (loaded: bool)
        requires
            old(self).wf(),
        ensures
            final(self).wf(),
            loaded == !old(self)@.occupied(address),
            loaded ==> final(self)@ == (LedgerView {
                schemas: old(self)@.schemas.insert(address, schema@),
                ..old(self)@
            }),
            !loaded ==> final(self)@ == old(self)@,
    {
        if self.occupied(&address) {
            return false;
        }
        self.put_schema(address, schema);
        true
    }

    /// Puts the control record into the free cell at `address`.
    pub(crate) fn create_config(&mut self, address: Address, record: C)
        requires
            old(self).wf(),
            old(self)@.config is None,
            !old(self)@.occupied(address),
        ensures
            final(self).wf(),
            final(self)@ == (LedgerView {
                config_cell: Some(address),
                config: Some(record@),
                ..old(self)@
            }),
    {
        self.config = Some(ConfigCell { address, record });
    }

    /// Takes the control record out of its cell.
    pub(crate) fn take_config(&mut self) -> (r: Option<(Address, C)>)
        requires
            old(self).wf(),
        ensures
            final(self).wf(),
            match r {
                Some((address, record)) => old(self)@.config_cell == Some(address) && old(
                    self,
                )@.config == Some(record@),
                None => old(self)@.config is None,
            },
            final(self)@ == (LedgerView { config_cell: None, config: None, ..old(self)@ }),
    {
        match self.config.take() {
            Some(cell) => Some((cell.address, cell.record)),
            None => None,
        }
    }

    /// Puts an entry into the free cell at `address`.
    pub(crate) fn put_entry(&mut self, address: Address, entry: E)
        requires
            old(self).wf(),
            !old(self)@.occupied(address),
        ensures
            final(self).wf(),
            final(self)@ == (LedgerView {
                entries: old(self)@.entries.insert(address, entry@),
                ..old(self)@
            }),
    {
        let inserted = self.entries.insert(address, entry);
    }

    /// Takes the entry out of the cell at `address`.
    pub(crate) fn take_entry(&mut self, address: &Address) -> (r: Option<E>)
        requires
            old(self).wf(),
        ensures
            final(self).wf(),
            match r {
                Some(entry) => old(self)@.entries.contains_key(*address) && old(
                    self,
                )@.entries[*address] == entry@ && final(self)@ == (LedgerView {
                    entries: old(self)@.entries.remove(*address),
                    ..old(self)@
                }),
                None => !old(self)@.entries.contains_key(*address) && final(self)@ == old(self)@,
            },
    {
        self.entries.remove(address)
    }

    /// Puts a schema into the free cell at `address`.
    pub(crate) fn put_schema(&mut self, address: Address, schema: SchemaData)
        requires
            old(self).wf(),
            !old(self)@.occupied(address),
        ensures
            final(self).wf(),
            final(self)@ == (LedgerView {
                schemas: old(self)@.schemas.insert(address, schema@),
                ..old(self)@
            }),
    {
        let inserted = self.schemas.insert(address, schema);
    }

    /// Takes the schema out of the cell at `address`.
    pub(crate) fn take_schema(&mut self, address: &Address) -> (r: Option<SchemaData>)
        requires
            old(self).wf(),
        ensures
            final(self).wf(),
            match r {
                Some(schema) => old(self)@.schemas.contains_key(*address) && old(
                    self,
                )@.schemas[*address] == schema@ && final(self)@ == (LedgerView {
                    schemas: old(self)@.schemas.remove(*address),
                    ..old(self)@
                }),
                None => !old(self)@.schemas.contains_key(*address) && final(self)@ == old(self)@,
            },
    {
        self.schemas.remove(address)
    }

    /// Moves the fee from `payer` to `authority`, or refuses if the payer
    /// holds too little.
    pub(crate) fn charge(&mut self, payer: &Address, authority: &Address, amount: u64) -> (r:
        Result<(), ErrorCode>)
        requires
            old(self).wf(),
        ensures
            final(self).wf(),
            old(self)@.balance(*payer) < amount ==> r == Err::<(), ErrorCode>(
                ErrorCode::InsufficientBalance,
            ) && final(self)@ == old(self)@,
            old(self)@.balance(*payer) >= amount ==> r is Ok && final(self)@ == (LedgerView {
                balances: moved(old(self)@.balances, *payer, *authority, amount as nat),
                ..old(self)@
            }),
    {
        let r = self.funds.charge(payer, authority, amount);
        proof {
            self.funds.lemma_balances(*payer);
            assert(self@.balances.dom() =~= Set::<Address>::full());
        }
        r
    }
}

} // verus!
