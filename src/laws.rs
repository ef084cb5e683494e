use vstd::prelude::*;

use crate::crud::{create_outcome, created_account, delete_outcome, update_outcome};
use crate::error::CrudError;
use crate::state::{check_lengths, lengths_valid, EntryView};
use crate::state::MAX_MESSAGE_LEN;
use crate::store::{with_message, AccountView, EntryKey, JournalStore};

verus! {

/// Creating a valid entry at a free address succeeds, and the record then
/// found at `(title, owner)` holds exactly the given owner, title and message.
pub proof fn create_then_lookup(
    m: Map<EntryKey, AccountView>,
    owner: Seq<u8>,
    title: Seq<char>,
    message: Seq<char>,
    rent: u64,
)
    requires
        lengths_valid(title, message),
        !m.contains_key((title, owner)),
    ensures
        create_outcome(m, owner, title, message) == Ok::<(), CrudError>(()),
        ({
            let after = m.insert((title, owner), created_account(owner, title, message, rent));
            &&& after.contains_key((title, owner))
            &&& after[(title, owner)].entry == EntryView { owner, title, message }
        }),
{
}

/// A title or a message outside its bounds makes create fail with the
/// length error, whatever the store holds.
pub proof fn create_rejects_bad_lengths(
    m: Map<EntryKey, AccountView>,
    owner: Seq<u8>,
    title: Seq<char>,
    message: Seq<char>,
)
    requires
        !lengths_valid(title, message),
    ensures
        create_outcome(m, owner, title, message) is Err,
        create_outcome(m, owner, title, message) == check_lengths(title, message),
{
}

/// A second create at the same `(title, owner)` fails with `AlreadyExists`.
pub proof fn create_twice_fails(
    m: Map<EntryKey, AccountView>,
    owner: Seq<u8>,
    title: Seq<char>,
    first: Seq<char>,
    second: Seq<char>,
    rent: u64,
)
    requires
        lengths_valid(title, first),
        lengths_valid(title, second),
        !m.contains_key((title, owner)),
    ensures
        create_outcome(m, owner, title, first) is Ok,
        create_outcome(
            m.insert((title, owner), created_account(owner, title, first, rent)),
            owner,
            title,
            second,
        ) == Err::<(), CrudError>(CrudError::AlreadyExists),
{
}

/// At an address that holds a record, create with a valid message fails with
/// `AlreadyExists` and update with a valid message succeeds; update with a
/// message out of bounds fails with that message's length error.
pub proof fn occupied_address(store: &JournalStore, owner: Seq<u8>, title: Seq<char>, message: Seq<char>)
    requires
        store.wf(),
        store@.contains_key((title, owner)),
    ensures
        1 <= message.len() <= MAX_MESSAGE_LEN ==> create_outcome(store@, owner, title, message)
            == Err::<(), CrudError>(CrudError::AlreadyExists),
        1 <= message.len() <= MAX_MESSAGE_LEN ==> update_outcome(store@, owner, title, message)
            is Ok,
        message.len() == 0 ==> update_outcome(store@, owner, title, message) == Err::<(), CrudError>(
            CrudError::MessageTooShort,
        ),
        message.len() > MAX_MESSAGE_LEN ==> update_outcome(store@, owner, title, message) == Err::<
            (),
            CrudError,
        >(CrudError::MessageTooLong),
{
    store.lemma_records_at_own_address();
    assert(store@.contains_key((title, owner)));
}

/// Updating a created entry replaces its message and keeps its owner, title
/// and funds.
pub proof fn update_after_create(
    m: Map<EntryKey, AccountView>,
    owner: Seq<u8>,
    title: Seq<char>,
    first: Seq<char>,
    second: Seq<char>,
    rent: u64,
)
    requires
        lengths_valid(title, first),
        lengths_valid(title, second),
        !m.contains_key((title, owner)),
    ensures
        ({
            let created = m.insert((title, owner), created_account(owner, title, first, rent));
            let updated = created.insert(
                (title, owner),
                with_message(created[(title, owner)], second),
            );
            &&& update_outcome(created, owner, title, second) is Ok
            &&& updated[(title, owner)] == created_account(owner, title, second, rent)
        }),
{
}

/// Update applies the same length rules as create, with the same errors.
pub proof fn update_checks_lengths_as_create(
    m: Map<EntryKey, AccountView>,
    owner: Seq<u8>,
    title: Seq<char>,
    message: Seq<char>,
)
    requires
        !lengths_valid(title, message),
    ensures
        update_outcome(m, owner, title, message) is Err,
        update_outcome(m, owner, title, message) == create_outcome(m, owner, title, message),
{
}

/// Update and delete at an address that holds no record fail with `NotFound`.
pub proof fn missing_record_not_found(
    m: Map<EntryKey, AccountView>,
    owner: Seq<u8>,
    title: Seq<char>,
    message: Seq<char>,
)
    requires
        !m.contains_key((title, owner)),
        lengths_valid(title, message),
    ensures
        update_outcome(m, owner, title, message) == Err::<(), CrudError>(CrudError::NotFound),
        delete_outcome(m, owner, title) == Err::<u64, CrudError>(CrudError::NotFound),
{
}

/// Deleting a created entry returns the funds it was created with, and the
/// address then holds no record.
pub proof fn delete_after_create(
    m: Map<EntryKey, AccountView>,
    owner: Seq<u8>,
    title: Seq<char>,
    message: Seq<char>,
    rent: u64,
)
    requires
        lengths_valid(title, message),
        !m.contains_key((title, owner)),
    ensures
        ({
            let created = m.insert((title, owner), created_account(owner, title, message, rent));
            &&& delete_outcome(created, owner, title) == Ok::<u64, CrudError>(rent)
            &&& !created.remove((title, owner)).contains_key((title, owner))
        }),
{
}

/// Two owners can each create an entry under the same title: the first
/// record does not occupy the second owner's address.
pub proof fn distinct_owners_share_title(
    m: Map<EntryKey, AccountView>,
    first_owner: Seq<u8>,
    second_owner: Seq<u8>,
    title: Seq<char>,
    first: Seq<char>,
    second: Seq<char>,
    rent: u64,
)
    requires
        first_owner != second_owner,
        lengths_valid(title, first),
        lengths_valid(title, second),
        !m.contains_key((title, first_owner)),
        !m.contains_key((title, second_owner)),
    ensures
        create_outcome(m, first_owner, title, first) is Ok,
        ({
            let created = m.insert(
                (title, first_owner),
                created_account(first_owner, title, first, rent),
            );
            create_outcome(created, second_owner, title, second) is Ok
        }),
{
}

} // verus!
