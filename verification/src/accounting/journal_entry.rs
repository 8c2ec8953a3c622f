use vstd::prelude::*;

use crate::accounting::double_entry::{
    balanced_outcome, books_currency, exact_books, side_total, tally, DoubleEntryService,
    PostingTally,
};
use crate::accounting::posting::{Posting, PostingSide};
use crate::shared::entity_id::{EntityId, JournalEntryId};
use crate::shared::errors::{is_invalid_operation, is_validation, DomainError, DomainResult};
use crate::shared::money::Money;
use crate::shared::text::{is_blank, is_blank_str};
use crate::shared::timestamp::Timestamp;

verus! {

/// Event raised when a journal entry is posted.
#[derive(Debug, Clone, Copy)]
pub struct EntryPosted {
    /// The entry that was posted.
    pub entry_id: JournalEntryId,
    /// When it was posted.
    pub posted_at: Timestamp,
    /// Sum of the debits of the entry.
    pub total_debit: Money,
}

/// What a journal entry holds.
pub struct JournalEntryState {
    pub id: u128,
    pub occurred_at: Timestamp,
    pub description: Seq<char>,
    pub postings: Seq<Posting>,
    pub posted: bool,
    pub events: Seq<EntryPosted>,
}

/// A journal entry: the aggregate that records postings and publishes them once balanced.
#[derive(Debug, Clone)]
pub struct JournalEntry {
    id: JournalEntryId,
    occurred_at: Timestamp,
    description: String,
    postings: Vec<Posting>,
    posted: bool,
    events: Vec<EntryPosted>,
}

impl View for JournalEntry {
    type V = JournalEntryState;

    closed spec fn view(&self) -> JournalEntryState {
        JournalEntryState {
            id: self.id.bits(),
            occurred_at: self.occurred_at,
            description: self.description@,
            postings: self.postings@,
            posted: self.posted,
            events: self.events@,
        }
    }
}

impl JournalEntryState {
    /// `post` would have to tally the postings (the entry is a draft with two or more).
    pub open spec fn post_tallies(self) -> bool {
        !self.posted && self.postings.len() >= 2
    }

    /// The running totals of the postings.
    pub open spec fn totals(self) -> PostingTally {
        tally(self.postings, books_currency(self.postings))
    }

    /// What posting `self` answers (`r`) and leaves (`new`): a posted entry and one with
    /// fewer than two postings are refused; otherwise the double-entry rule decides; a
    /// posted entry raises one event with its total debit; a refused entry is unchanged.
    pub open spec fn post_outcome(self, new: JournalEntryState, r: DomainResult<()>) -> bool {
        &&& self.posted ==> r is Err && is_invalid_operation(
            r->Err_0,
            "El asiento ya está publicado"@,
        )
        &&& !self.posted && self.postings.len() < 2 ==> r is Err && is_validation(
            r->Err_0,
            "Un asiento publicado requiere al menos dos partidas"@,
        )
        &&& self.post_tallies() ==> balanced_outcome(self.postings, r)
        &&& r is Err ==> new == self
        &&& r is Ok ==> (self.totals() matches PostingTally::Running { debits, credits }
            && new.posted && new.id == self.id && new.occurred_at == self.occurred_at
            && new.description == self.description && new.postings == self.postings
            && new.events.len() == self.events.len() + 1 && new.events.drop_last() =~= self.events
            && new.events.last().entry_id.bits() == self.id && new.events.last().total_debit
            == debits)
        &&& exact_books(self.postings) && r is Ok ==> new.events.last().total_debit.amount.value()
            == side_total(self.postings, PostingSide::Debit)
    }
}

impl JournalEntry {
    /// Opens a draft entry; a blank description is a validation error.
    pub fn draft(description: &str) -> (r: DomainResult<JournalEntry>)
        ensures
            r is Err <==> is_blank(description@),
            r is Err ==> is_validation(r->Err_0, "La descripción del asiento no puede estar vacía"@),
            r matches Ok(e) ==> e@.description == description@ && e@.postings.len() == 0
                && !e@.posted && e@.events.len() == 0,
    {
        if is_blank_str(description) {
            return Err(
                DomainError::validation("La descripción del asiento no puede estar vacía"),
            );
        }
        Ok(
            JournalEntry {
                id: EntityId::new(),
                occurred_at: Timestamp::now(),
                description: description.to_owned(),
                postings: Vec::new(),
                posted: false,
                events: Vec::new(),
            },
        )
    }

    /// Rebuilds an entry from stored values; it has no pending events.
    pub fn rehydrate(
        id: JournalEntryId,
        occurred_at: Timestamp,
        description: String,
        postings: Vec<Posting>,
        posted: bool,
    ) -> (r: JournalEntry)
        ensures
            r@ == (JournalEntryState {
                id: id.bits(),
                occurred_at,
                description: description@,
                postings: postings@,
                posted,
                events: Seq::empty(),
            }),
    {
        JournalEntry { id, occurred_at, description, postings, posted, events: Vec::new() }
    }

    /// Appends a posting to an entry that is not posted yet.
    pub fn add_posting(&mut self, posting: Posting) -> (r: DomainResult<()>)
        ensures
            r is Err <==> old(self)@.posted,
            r is Err ==> is_invalid_operation(
                r->Err_0,
                "No se puede modificar un asiento publicado"@,
            ) && final(self)@ == old(self)@,
            r is Ok ==> final(self)@ == (JournalEntryState {
                postings: old(self)@.postings.push(posting),
                ..old(self)@
            }),
    {
        if self.posted {
            return Err(DomainError::invalid_operation("No se puede modificar un asiento publicado"));
        }
        self.postings.push(posting);
        Ok(())
    }

    /// Posts the entry and raises its event. Refused when it is already posted, when it has
    /// fewer than two postings, and when its postings are not balanced or mix currencies;
    /// a refused entry is left unchanged.
    pub fn post(&mut self) -> (r: DomainResult<()>)
        requires
            old(self)@.post_tallies() ==> !(old(self)@.totals() is Overflow),
        ensures
            old(self)@.post_outcome(final(self)@, r),
    {
        if self.posted {
            return Err(DomainError::invalid_operation("El asiento ya está publicado"));
        }
        if self.postings.len() < 2 {
            return Err(
                DomainError::validation("Un asiento publicado requiere al menos dos partidas"),
            );
        }
        DoubleEntryService::validate_balanced(self.postings.as_slice())?;
        self.posted = true;
        let currency = self.postings[0].amount().currency;
        let total_debit = match DoubleEntryService::totals(self.postings.as_slice(), currency) {
            PostingTally::Running { debits, credits: _ } => debits,
            _ => unreached(),
        };
        self.events.push(EntryPosted { entry_id: self.id, posted_at: Timestamp::now(), total_debit });
        Ok(())
    }

    /// `post` where the running totals do not overflow; `None`, and the entry unchanged,
    /// where they do.
    pub fn checked_post(&mut self) -> (r: Option<DomainResult<()>>)
        ensures
            r is None <==> old(self)@.post_tallies() && old(self)@.totals() is Overflow,
            r is None ==> final(self)@ == old(self)@,
            exact_books(old(self)@.postings) ==> r is Some,
            r matches Some(res) ==> old(self)@.post_outcome(final(self)@, res),
    {
        if !self.posted && self.postings.len() >= 2 {
            let currency = self.postings[0].amount().currency;
            if let PostingTally::Overflow = DoubleEntryService::totals(self.postings.as_slice(), currency) {
                return None;
            }
        }
        Some(self.post())
    }

    /// Hands out the pending events and clears them.
    pub fn drain_events(&mut self) -> (r: Vec<EntryPosted>)
        ensures
            r@ == old(self)@.events,
            final(self)@ == (JournalEntryState { events: Seq::empty(), ..old(self)@ }),
    {
        let mut drained = Vec::new();
        core::mem::swap(&mut drained, &mut self.events);
        drained
    }

    /// Identifier of the entry.
    pub fn id(&self) -> (r: JournalEntryId)
        ensures
            r.bits() == self@.id,
    {
        self.id
    }

    /// When the entry occurred.
    pub fn occurred_at(&self) -> (r: &Timestamp)
        ensures
            *r == self@.occurred_at,
    {
        &self.occurred_at
    }

    /// Description of the entry.
    pub fn description(&self) -> (r: &str)
        ensures
            r@ == self@.description,
    {
        self.description.as_str()
    }

    /// Postings of the entry.
    pub fn postings(&self) -> (r: &[Posting])
        ensures
            r@ == self@.postings,
    {
        self.postings.as_slice()
    }

    /// Whether the entry is posted.
    pub fn is_posted(&self) -> (r: bool)
        ensures
            r == self@.posted,
    {
        self.posted
    }
}

} // verus!
