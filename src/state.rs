use vstd::prelude::*;
use vstd::string::StrSliceExecFns;

use crate::error::CrudError;
use crate::pubkey::Pubkey;

verus! {

/// Largest title, in characters.
pub const MAX_TITLE_LEN: usize = 50;

/// Largest message, in characters.
pub const MAX_MESSAGE_LEN: usize = 280;

/// The outcome of the length rules on a title and a message: each bound is
/// tested in turn, and the first that fails names the error.
pub open spec fn check_lengths(title: Seq<char>, message: Seq<char>) -> Result<(), CrudError> {
    if title.len() > MAX_TITLE_LEN {
        Err(CrudError::TitleTooLong)
    } else if message.len() > MAX_MESSAGE_LEN {
        Err(CrudError::MessageTooLong)
    } else if title.len() == 0 {
        Err(CrudError::TitleTooShort)
    } else if message.len() == 0 {
        Err(CrudError::MessageTooShort)
    } else {
        Ok(())
    }
}

/// Whether a title and a message both lie within their bounds.
pub open spec fn lengths_valid(title: Seq<char>, message: Seq<char>) -> bool {
    1 <= title.len() <= MAX_TITLE_LEN && 1 <= message.len() <= MAX_MESSAGE_LEN
}

/// Applies the length rules to a title and a message.
pub fn validate_lengths(title: &String, message: &String) -> (r: Result<(), CrudError>)
    ensures
        r == check_lengths(title@, message@),
        r is Ok <==> lengths_valid(title@, message@),
{
    let title_len = title.as_str().unicode_len();
    let message_len = message.as_str().unicode_len();
    if title_len > MAX_TITLE_LEN {
        Err(CrudError::TitleTooLong)
    } else if message_len > MAX_MESSAGE_LEN {
        Err(CrudError::MessageTooLong)
    } else if title_len == 0 {
        Err(CrudError::TitleTooShort)
    } else if message_len == 0 {
        Err(CrudError::MessageTooShort)
    } else {
        Ok(())
    }
}

/// What a journal entry holds, as mathematical values.
pub struct EntryView {
    pub owner: Seq<u8>,
    pub title: Seq<char>,
    pub message: Seq<char>,
}

/// A journal entry: its owner, its title and its message.
pub struct JournalEntryState {
    pub owner: Pubkey,
    pub title: String,
    pub message: String,
}

impl View for JournalEntryState {
    type V = EntryView;

    open spec fn view(&self) -> EntryView {
        EntryView { owner: self.owner@, title: self.title@, message: self.message@ }
    }
}

} // verus!
