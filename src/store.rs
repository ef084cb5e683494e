use vstd::prelude::*;

use crate::pubkey::Pubkey;
use crate::state::{lengths_valid, EntryView, JournalEntryState, MAX_MESSAGE_LEN};

verus! {

/// The address of a record: its title and its owner's bytes.
pub type EntryKey = (Seq<char>, Seq<u8>);

/// What an account holds, as mathematical values.
pub struct AccountView {
    pub entry: EntryView,
    pub lamports: u64,
}

/// A stored journal entry together with the funds locked in its storage.
pub struct JournalAccount {
    pub state: JournalEntryState,
    pub lamports: u64,
}

impl View for JournalAccount {
    type V = AccountView;

    open spec fn view(&self) -> AccountView {
        AccountView { entry: self.state@, lamports: self.lamports }
    }
}

/// The address under which an account is stored.
pub open spec fn key_of(a: JournalAccount) -> EntryKey {
    (a.state.title@, a.state.owner@)
}

/// An account's view with its message replaced.
pub open spec fn with_message(a: AccountView, message: Seq<char>) -> AccountView {
    AccountView {
        entry: EntryView { owner: a.entry.owner, title: a.entry.title, message },
        lamports: a.lamports,
    }
}

/// The records of the ledger, at most one for each `(title, owner)`.
pub struct JournalStore {
    accounts: Vec<JournalAccount>,
    model: Ghost<Map<EntryKey, AccountView>>,
}

impl View for JournalStore {
    type V = Map<EntryKey, AccountView>;

    closed spec fn view(&self) -> Map<EntryKey, AccountView> {
        self.model@
    }
}

impl JournalStore {
    /// The stored accounts agree with the model, one for each address, and
    /// every stored title and message lies within its bounds.
    pub closed spec fn wf(&self) -> bool {
        &&& self.model@.dom().finite()
        &&& self.model@.len() == self.accounts@.len()
        &&& forall|i: int, j: int|
            0 <= i < j < self.accounts@.len() ==> key_of(#[trigger] self.accounts@[i]) != key_of(
                #[trigger] self.accounts@[j],
            )
        &&& forall|i: int|
            0 <= i < self.accounts@.len() ==> {
                &&& self.model@.contains_key(key_of(#[trigger] self.accounts@[i]))
                &&& self.model@[key_of(self.accounts@[i])] == self.accounts@[i]@
                &&& lengths_valid(self.accounts@[i].state.title@, self.accounts@[i].state.message@)
            }
        &&& forall|k: EntryKey| #[trigger]
            self.model@.contains_key(k) ==> exists|i: int|
                0 <= i < self.accounts@.len() && key_of(#[trigger] self.accounts@[i]) == k
    }

    /// Each record is stored under its own title and its own owner, so the
    /// record found at `(title, owner)` always belongs to `owner`; and its
    /// title and message lie within their bounds.
    pub proof fn lemma_records_at_own_address(&self)
        requires
            self.wf(),
        ensures
            forall|k: EntryKey| #[trigger]
                self@.contains_key(k) ==> {
                    &&& self@[k].entry.title == k.0
                    &&& self@[k].entry.owner == k.1
                    &&& lengths_valid(self@[k].entry.title, self@[k].entry.message)
                },
    {
        assert forall|k: EntryKey| #[trigger]
            self@.contains_key(k) implies {
                &&& self@[k].entry.title == k.0
                &&& self@[k].entry.owner == k.1
                &&& lengths_valid(self@[k].entry.title, self@[k].entry.message)
            } by {
            let i = choose|i: int|
                0 <= i < self.accounts@.len() && key_of(#[trigger] self.accounts@[i]) == k;
            assert(self.model@[key_of(self.accounts@[i])] == self.accounts@[i]@);
        }
    }

    /// An empty store.
    pub fn new() -> (r: JournalStore)
        ensures
            r.wf(),
            r@ == Map::<EntryKey, AccountView>::empty(),
    {
        JournalStore { accounts: Vec::new(), model: Ghost(Map::empty()) }
    }

    /// Number of stored records.
    pub fn len(&self) -> (r: usize)
        requires
            self.wf(),
        ensures
            r == self@.len(),
    {
        self.accounts.len()
    }

    /// Position of the account stored at `(title, owner)`, if any.
    fn find(&self, owner: &Pubkey, title: &String) -> (r: Option<usize>)
        requires
            self.wf(),
        ensures
            match r {
                Some(i) => i < self.accounts@.len() && key_of(self.accounts@[i as int]) == (title@, owner@),
                None => !self@.contains_key((title@, owner@)),
            },
    {
        let mut i: usize = 0;
        while i < self.accounts.len()
            invariant
                self.wf(),
                i <= self.accounts@.len(),
                forall|j: int| 0 <= j < i ==> key_of(#[trigger] self.accounts@[j]) != (title@, owner@),
            decreases self.accounts@.len() - i,
        {
            let a = &self.accounts[i];
            if a.state.title == *title && a.state.owner == *owner {
                return Some(i);
            }
            i = i + 1;
        }
        None
    }

    /// The account stored at `(title, owner)`, if any.
    pub fn lookup(&self, owner: &Pubkey, title: &String) -> (r: Option<&JournalAccount>)
        requires
            self.wf(),
        ensures
            match r {
                Some(a) => self@.contains_key((title@, owner@)) && a@ == self@[(title@, owner@)],
                None => !self@.contains_key((title@, owner@)),
            },
    {
        match self.find(owner, title) {
            Some(i) => Some(&self.accounts[i]),
            None => None,
        }
    }
    /// Stores a new account at an address that holds none.
    pub fn insert(&mut self, account: JournalAccount)
        requires
            old(self).wf(),
            !old(self)@.contains_key(key_of(account)),
            lengths_valid(account.state.title@, account.state.message@),
        ensures
            final(self).wf(),
            final(self)@ == old(self)@.insert(key_of(account), account@),
    {
        let ghost k = key_of(account);
        let ghost v = account@;
        let ghost old_accounts = self.accounts@;
        self.accounts.push(account);
        self.model = Ghost(self.model@.insert(k, v));
        assert forall|key: EntryKey| #[trigger] self.model@.contains_key(key) implies exists|i: int|
            0 <= i < self.accounts@.len() && key_of(#[trigger] self.accounts@[i]) == key by {
            if key == k {
                assert(key_of(self.accounts@[old_accounts.len() as int]) == key);
            } else {
                assert(old(self).model@.contains_key(key));
                let i = choose|i: int|
                    0 <= i < old_accounts.len() && key_of(#[trigger] old_accounts[i]) == key;
                assert(self.accounts@[i] == old_accounts[i]);
            }
        }
    }

    /// Replaces the message of the account at `(title, owner)`; says whether
    /// there was one.
    pub fn set_message(&mut self, owner: &Pubkey, title: &String, message: String) -> (found: bool)
        requires
            old(self).wf(),
            1 <= message@.len() <= MAX_MESSAGE_LEN,
        ensures
            final(self).wf(),
            found == old(self)@.contains_key((title@, owner@)),
            found ==> final(self)@ == old(self)@.insert(
                (title@, owner@),
                with_message(old(self)@[(title@, owner@)], message@),
            ),
            !found ==> final(self)@ == old(self)@,
    {
        match self.find(owner, title) {
            None => false,
            Some(i) => {
                let ghost k = (title@, owner@);
                let ghost old_accounts = self.accounts@;
                let old_account = self.accounts.remove(i);
                let JournalAccount { state, lamports } = old_account;
                let JournalEntryState { owner: entry_owner, title: entry_title, message: _ } = state;
                let account = JournalAccount {
                    state: JournalEntryState { owner: entry_owner, title: entry_title, message },
                    lamports,
                };
                self.accounts.insert(i, account);
                assert(self.accounts@ =~= old_accounts.update(i as int, account));
                self.model = Ghost(self.model@.insert(k, account@));
                assert(account@ == with_message(old(self)@[k], message@));
                assert forall|key: EntryKey| #[trigger] self.model@.contains_key(key) implies exists|
                    j: int,
                | 0 <= j < self.accounts@.len() && key_of(#[trigger] self.accounts@[j]) == key by {
                    assert(old(self).model@.contains_key(key));
                    let j = choose|j: int|
                        0 <= j < old_accounts.len() && key_of(#[trigger] old_accounts[j]) == key;
                    assert(key_of(self.accounts@[j]) == key);
                }
                true
            },
        }
    }

    /// Takes out the account at `(title, owner)`, if there is one.
    pub fn remove(&mut self, owner: &Pubkey, title: &String) -> (r: Option<JournalAccount>)
        requires
            old(self).wf(),
        ensures
            final(self).wf(),
            match r {
                Some(a) => {
                    &&& old(self)@.contains_key((title@, owner@))
                    &&& a@ == old(self)@[(title@, owner@)]
                    &&& final(self)@ == old(self)@.remove((title@, owner@))
                },
                None => !old(self)@.contains_key((title@, owner@)) && final(self)@ == old(self)@,
            },
    {
        match self.find(owner, title) {
            None => None,
            Some(i) => {
                let ghost k = (title@, owner@);
                let ghost old_accounts = self.accounts@;
                let account = self.accounts.remove(i);
                self.model = Ghost(self.model@.remove(k));
                assert forall|j: int| 0 <= j < self.accounts@.len() implies #[trigger] self.accounts@[j]
                    == old_accounts[if j < i { j } else { j + 1 }] by {}
                assert forall|key: EntryKey| #[trigger] self.model@.contains_key(key) implies exists|
                    j: int,
                | 0 <= j < self.accounts@.len() && key_of(#[trigger] self.accounts@[j]) == key by {
                    assert(old(self).model@.contains_key(key));
                    let j = choose|j: int|
                        0 <= j < old_accounts.len() && key_of(#[trigger] old_accounts[j]) == key;
                    assert(j != i);
                    if j < i {
                        assert(key_of(self.accounts@[j]) == key);
                    } else {
                        assert(key_of(self.accounts@[j - 1]) == key);
                    }
                }
                Some(account)
            },
        }
    }
}

} // verus!
