use crud::accounts::{CreateJournalEntry, DeleteJournalEntry, UpdateJournalEntry};
use crud::crud::{create_journal_entry, delete_journal_entry, update_journal_entry};
use crud::error::CrudError;
use crud::pubkey::Pubkey;
use crud::state::{validate_lengths, MAX_MESSAGE_LEN, MAX_TITLE_LEN};
use crud::store::JournalStore;

fn key(b: u8) -> Pubkey {
    Pubkey::new_from_array([b; 32])
}

fn create(store: &mut JournalStore, owner: Pubkey, rent: u64, title: &str, message: &str) -> Result<(), CrudError> {
    create_journal_entry(store, &CreateJournalEntry { owner, rent }, title.to_string(), message.to_string())
}

fn update(store: &mut JournalStore, owner: Pubkey, title: &str, message: &str) -> Result<(), CrudError> {
    update_journal_entry(store, &UpdateJournalEntry { owner }, title.to_string(), message.to_string())
}

fn delete(store: &mut JournalStore, owner: Pubkey, title: &str) -> Result<u64, CrudError> {
    delete_journal_entry(store, &DeleteJournalEntry { owner }, title.to_string())
}

fn message_of(store: &JournalStore, owner: Pubkey, title: &str) -> Option<String> {
    store.lookup(&owner, &title.to_string()).map(|a| a.state.message.clone())
}

#[test]
fn create_then_lookup_returns_fields() {
    let mut store = JournalStore::new();
    assert_eq!(create(&mut store, key(1), 500, "diary", "first day"), Ok(()));
    let account = store.lookup(&key(1), &"diary".to_string()).unwrap();
    assert!(account.state.owner == key(1));
    assert_eq!(account.state.title, "diary");
    assert_eq!(account.state.message, "first day");
    assert_eq!(account.lamports, 500);
    assert_eq!(store.len(), 1);
}

#[test]
fn create_rejects_empty_title() {
    let mut store = JournalStore::new();
    assert_eq!(create(&mut store, key(1), 1, "", "m"), Err(CrudError::TitleTooShort));
    assert_eq!(store.len(), 0);
}

#[test]
fn create_rejects_long_title() {
    let mut store = JournalStore::new();
    let title = "t".repeat(51);
    assert_eq!(create(&mut store, key(1), 1, &title, "m"), Err(CrudError::TitleTooLong));
    assert_eq!(store.len(), 0);
    assert_eq!(message_of(&store, key(1), &title), None);
}

#[test]
fn create_rejects_empty_message() {
    let mut store = JournalStore::new();
    assert_eq!(create(&mut store, key(1), 1, "t", ""), Err(CrudError::MessageTooShort));
    assert_eq!(store.len(), 0);
}

#[test]
fn create_rejects_long_message() {
    let mut store = JournalStore::new();
    let message = "m".repeat(281);
    assert_eq!(create(&mut store, key(1), 1, "t", &message), Err(CrudError::MessageTooLong));
    assert_eq!(store.len(), 0);
}

#[test]
fn create_accepts_largest_sizes() {
    let mut store = JournalStore::new();
    let title = "t".repeat(MAX_TITLE_LEN);
    let message = "m".repeat(MAX_MESSAGE_LEN);
    assert_eq!(create(&mut store, key(1), 1, &title, &message), Ok(()));
    assert_eq!(message_of(&store, key(1), &title), Some(message));
}

#[test]
fn lengths_count_characters_not_bytes() {
    let title = "é".repeat(50);
    let message = "ü".repeat(280);
    assert_eq!(validate_lengths(&title, &message), Ok(()));
    assert_eq!(validate_lengths(&"é".repeat(51), &message), Err(CrudError::TitleTooLong));
}

#[test]
fn title_error_comes_before_message_error() {
    assert_eq!(validate_lengths(&"t".repeat(51), &String::new()), Err(CrudError::TitleTooLong));
    assert_eq!(validate_lengths(&String::new(), &"m".repeat(281)), Err(CrudError::MessageTooLong));
    assert_eq!(validate_lengths(&String::new(), &String::new()), Err(CrudError::TitleTooShort));
}

#[test]
fn create_twice_fails_and_keeps_first() {
    let mut store = JournalStore::new();
    assert_eq!(create(&mut store, key(1), 7, "diary", "one"), Ok(()));
    assert_eq!(create(&mut store, key(1), 9, "diary", "two"), Err(CrudError::AlreadyExists));
    assert_eq!(message_of(&store, key(1), "diary"), Some("one".to_string()));
    assert_eq!(store.lookup(&key(1), &"diary".to_string()).unwrap().lamports, 7);
    assert_eq!(store.len(), 1);
}

#[test]
fn update_changes_message_only() {
    let mut store = JournalStore::new();
    assert_eq!(create(&mut store, key(2), 3, "diary", "one"), Ok(()));
    assert_eq!(update(&mut store, key(2), "diary", "two"), Ok(()));
    let account = store.lookup(&key(2), &"diary".to_string()).unwrap();
    assert!(account.state.owner == key(2));
    assert_eq!(account.state.title, "diary");
    assert_eq!(account.state.message, "two");
    assert_eq!(account.lamports, 3);
}

#[test]
fn update_enforces_message_bounds() {
    let mut store = JournalStore::new();
    assert_eq!(create(&mut store, key(2), 3, "diary", "one"), Ok(()));
    assert_eq!(update(&mut store, key(2), "diary", ""), Err(CrudError::MessageTooShort));
    assert_eq!(update(&mut store, key(2), "diary", &"m".repeat(281)), Err(CrudError::MessageTooLong));
    assert_eq!(message_of(&store, key(2), "diary"), Some("one".to_string()));
}

#[test]
fn update_missing_is_not_found() {
    let mut store = JournalStore::new();
    assert_eq!(create(&mut store, key(1), 3, "diary", "one"), Ok(()));
    assert_eq!(update(&mut store, key(1), "other", "two"), Err(CrudError::NotFound));
    assert_eq!(update(&mut store, key(2), "diary", "two"), Err(CrudError::NotFound));
    assert_eq!(message_of(&store, key(1), "diary"), Some("one".to_string()));
    assert_eq!(store.len(), 1);
}

#[test]
fn delete_missing_is_not_found() {
    let mut store = JournalStore::new();
    assert_eq!(create(&mut store, key(1), 3, "diary", "one"), Ok(()));
    assert_eq!(delete(&mut store, key(2), "diary"), Err(CrudError::NotFound));
    assert_eq!(delete(&mut store, key(1), "other"), Err(CrudError::NotFound));
    assert_eq!(store.len(), 1);
}

#[test]
fn delete_after_create_returns_funds() {
    let mut store = JournalStore::new();
    assert_eq!(create(&mut store, key(1), 2_000_000, "diary", "one"), Ok(()));
    assert_eq!(create(&mut store, key(1), 5, "notes", "two"), Ok(()));
    assert_eq!(delete(&mut store, key(1), "diary"), Ok(2_000_000));
    assert!(store.lookup(&key(1), &"diary".to_string()).is_none());
    assert_eq!(message_of(&store, key(1), "notes"), Some("two".to_string()));
    assert_eq!(store.len(), 1);
    assert_eq!(delete(&mut store, key(1), "diary"), Err(CrudError::NotFound));
}

#[test]
fn delete_then_create_again() {
    let mut store = JournalStore::new();
    assert_eq!(create(&mut store, key(1), 1, "diary", "one"), Ok(()));
    assert_eq!(delete(&mut store, key(1), "diary"), Ok(1));
    assert_eq!(create(&mut store, key(1), 4, "diary", "again"), Ok(()));
    assert_eq!(message_of(&store, key(1), "diary"), Some("again".to_string()));
}

#[test]
fn owners_share_a_title() {
    let mut store = JournalStore::new();
    assert_eq!(create(&mut store, key(1), 1, "diary", "alice"), Ok(()));
    assert_eq!(create(&mut store, key(2), 1, "diary", "bob"), Ok(()));
    assert_eq!(store.len(), 2);
    assert_eq!(message_of(&store, key(1), "diary"), Some("alice".to_string()));
    assert_eq!(message_of(&store, key(2), "diary"), Some("bob".to_string()));
    assert_eq!(update(&mut store, key(2), "diary", "bob2"), Ok(()));
    assert_eq!(message_of(&store, key(1), "diary"), Some("alice".to_string()));
}

#[test]
fn pubkey_round_trip_and_equality() {
    let mut bytes = [0u8; 32];
    bytes[31] = 9;
    let a = Pubkey::new_from_array(bytes);
    assert_eq!(a.to_bytes(), bytes);
    assert!(a == Pubkey::new_from_array(bytes));
    assert!(a != key(0));
}

#[test]
fn error_messages() {
    assert_eq!(CrudError::TitleTooLong.message(), "The provided title should be 50 characters long maximum.");
    assert_eq!(CrudError::MessageTooShort.message(), "The provided message should be 1 character long minimum.");
}

#[test]
fn update_back_restores_message() {
    let mut store = JournalStore::new();
    assert_eq!(create(&mut store, key(3), 8, "diary", "one"), Ok(()));
    assert_eq!(update(&mut store, key(3), "diary", "two"), Ok(()));
    assert_eq!(update(&mut store, key(3), "diary", "one"), Ok(()));
    let account = store.lookup(&key(3), &"diary".to_string()).unwrap();
    assert_eq!(account.state.message, "one");
    assert_eq!(account.lamports, 8);
    assert_eq!(create(&mut store, key(3), 8, "diary", "three"), Err(CrudError::AlreadyExists));
    assert_eq!(update(&mut store, key(3), "diary", ""), Err(CrudError::MessageTooShort));
}

#[test]
fn every_error_has_text() {
    assert_eq!(CrudError::MessageTooLong.message(), "The provided message should be 280 characters long maximum.");
    assert_eq!(CrudError::TitleTooShort.message(), "The provided title should be 1 character long minimum.");
    assert_eq!(CrudError::AlreadyExists.message(), "A journal entry with this title already exists for this owner.");
    assert_eq!(CrudError::NotFound.message(), "No journal entry with this title exists for this owner.");
}
