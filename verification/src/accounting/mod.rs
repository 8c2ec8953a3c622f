//! Accounting: ledger accounts, postings, the double-entry rule and journal entries.

pub mod account;
pub mod account_code;
pub mod double_entry;
pub mod journal_entry;
pub mod posting;

pub use account::{Account, AccountState, AccountType};
pub use account_code::AccountCode;
pub use posting::{Posting, PostingSide};
pub use double_entry::DoubleEntryService;
pub use journal_entry::{EntryPosted, JournalEntry, JournalEntryState};
