use vstd::prelude::*;

use crate::accounts::{CreateJournalEntry, DeleteJournalEntry, UpdateJournalEntry};
use crate::error::CrudError;
use crate::state::{check_lengths, validate_lengths, EntryView, JournalEntryState};
use crate::store::{with_message, AccountView, EntryKey, JournalAccount, JournalStore};

verus! {

/// The account that a successful create stores.
pub open spec fn created_account(
    owner: Seq<u8>,
    title: Seq<char>,
    message: Seq<char>,
    rent: u64,
) -> AccountView {
    AccountView { entry: EntryView { owner, title, message }, lamports: rent }
}

/// What create returns: the length rules first, then the address must be free.
pub open spec fn create_outcome(
    m: Map<EntryKey, AccountView>,
    owner: Seq<u8>,
    title: Seq<char>,
    message: Seq<char>,
) -> Result<(), CrudError> {
    match check_lengths(title, message) {
        Err(e) => Err(e),
        Ok(_) => if m.contains_key((title, owner)) {
            Err(CrudError::AlreadyExists)
        } else {
            Ok(())
        },
    }
}

/// What update returns: the length rules first, then the address must hold a record.
pub open spec fn update_outcome(
    m: Map<EntryKey, AccountView>,
    owner: Seq<u8>,
    title: Seq<char>,
    message: Seq<char>,
) -> Result<(), CrudError> {
    match check_lengths(title, message) {
        Err(e) => Err(e),
        Ok(_) => if m.contains_key((title, owner)) {
            Ok(())
        } else {
            Err(CrudError::NotFound)
        },
    }
}

/// What delete returns: the funds of the record at the address, or `NotFound`.
pub open spec fn delete_outcome(
    m: Map<EntryKey, AccountView>,
    owner: Seq<u8>,
    title: Seq<char>,
) -> Result<u64, CrudError> {
    if m.contains_key((title, owner)) {
        Ok(m[(title, owner)].lamports)
    } else {
        Err(CrudError::NotFound)
    }
}

/// Creates the entry `(title, message)` owned by the signer, funded with
/// `ctx.rent`. A rejected call leaves the store as it was.
pub fn create_journal_entry(
    store: &mut JournalStore,
    ctx: &CreateJournalEntry,
    title: String,
    message: String,
) -> (r: Result<(), CrudError>)
    requires
        old(store).wf(),
    ensures
        final(store).wf(),
        r == create_outcome(old(store)@, ctx.owner@, title@, message@),
        r is Ok ==> final(store)@ == old(store)@.insert(
            (title@, ctx.owner@),
            created_account(ctx.owner@, title@, message@, ctx.rent),
        ),
        r is Err ==> final(store)@ == old(store)@,
{
    validate_lengths(&title, &message)?;
    if store.lookup(&ctx.owner, &title).is_some() {
        return Err(CrudError::AlreadyExists);
    }
    let account = JournalAccount {
        state: JournalEntryState { owner: ctx.owner, title, message },
        lamports: ctx.rent,
    };
    store.insert(account);
    Ok(())
}

/// Replaces the message of the signer's entry titled `title`. The title and
/// owner stay as they were; a rejected call leaves the store as it was.
pub fn update_journal_entry(
    store: &mut JournalStore,
    ctx: &UpdateJournalEntry,
    title: String,
    message: String,
) -> (r: Result<(), CrudError>)
    requires
        old(store).wf(),
    ensures
        final(store).wf(),
        r == update_outcome(old(store)@, ctx.owner@, title@, message@),
        r is Ok ==> final(store)@ == old(store)@.insert(
            (title@, ctx.owner@),
            with_message(old(store)@[(title@, ctx.owner@)], message@),
        ),
        r is Err ==> final(store)@ == old(store)@,
{
    validate_lengths(&title, &message)?;
    if store.set_message(&ctx.owner, &title, message) {
        Ok(())
    } else {
        Err(CrudError::NotFound)
    }
}

/// Deletes the signer's entry titled `title` and returns the lamports that
/// its storage held, which go back to the owner. A rejected call leaves the
/// store as it was.
pub fn delete_journal_entry(
    store: &mut JournalStore,
    ctx: &DeleteJournalEntry,
    title: String,
) -> (r: Result<u64, CrudError>)
    requires
        old(store).wf(),
    ensures
        final(store).wf(),
        r == delete_outcome(old(store)@, ctx.owner@, title@),
        r is Ok ==> final(store)@ == old(store)@.remove((title@, ctx.owner@)),
        r is Err ==> final(store)@ == old(store)@,
{
    match store.remove(&ctx.owner, &title) {
        Some(account) => Ok(account.lamports),
        None => Err(CrudError::NotFound),
    }
}

} // verus!
