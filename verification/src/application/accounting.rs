use vstd::prelude::*;

use crate::accounting::double_entry::{
    balanced_outcome, books_currency, exact_books, max_scale, side_total, tally,
};
use crate::accounting::journal_entry::JournalEntry;
use crate::accounting::posting::{Posting, PostingSide};
use crate::shared::amount::{lemma_fits_from_range, within_range, Amount};
use crate::shared::currency::Currency;
use crate::shared::entity_id::AccountId;
use crate::shared::errors::{is_validation, DomainError, DomainResult};
use crate::shared::money::Money;
use crate::shared::text::is_blank;

verus! {

/// One line of the command that posts a journal entry.
#[derive(Debug, Clone, Copy)]
pub struct PostJournalEntryLine {
    /// The account affected.
    pub account_id: AccountId,
    /// Debit or credit.
    pub side: PostingSide,
    /// The amount.
    pub amount: Money,
}

/// Command that posts a journal entry.
#[derive(Debug, Clone)]
pub struct PostJournalEntryCommand {
    /// Description of the entry.
    pub description: String,
    /// Its postings, in order.
    pub lines: Vec<PostJournalEntryLine>,
}

impl PostJournalEntryCommand {
    /// The entry of a form: `amount` debited from one account and credited to another.
    pub fn transfer(
        description: String,
        debit_account_id: AccountId,
        credit_account_id: AccountId,
        amount: Money,
    ) -> (r: PostJournalEntryCommand)
        ensures
            r.description@ == description@,
            r.lines@ == seq![
                PostJournalEntryLine { account_id: debit_account_id, side: PostingSide::Debit, amount },
                PostJournalEntryLine { account_id: credit_account_id, side: PostingSide::Credit, amount },
            ],
    {
        let mut lines = Vec::new();
        lines.push(
            PostJournalEntryLine { account_id: debit_account_id, side: PostingSide::Debit, amount },
        );
        lines.push(
            PostJournalEntryLine { account_id: credit_account_id, side: PostingSide::Credit, amount },
        );
        PostJournalEntryCommand { description, lines }
    }
}

/// The postings that the lines of a command become.
pub open spec fn line_postings(lines: Seq<PostJournalEntryLine>) -> Seq<Posting> {
    lines.map_values(|l: PostJournalEntryLine| Posting::spec_new(l.account_id, l.side, l.amount))
}

/// Every line has an amount above zero.
pub open spec fn lines_positive(lines: Seq<PostJournalEntryLine>) -> bool {
    forall|i: int| 0 <= i < lines.len() ==> (#[trigger] lines[i]).amount.amount.value() > 0
}

/// The answer of a use case, with the entry it built set aside.
pub open spec fn verdict_of(r: DomainResult<JournalEntry>) -> DomainResult<()> {
    match r {
        Ok(_) => Ok(()),
        Err(e) => Err(e),
    }
}

/// Drafts the entry of the command, adds its postings in order and posts it: the part of
/// posting a journal entry that decides, before it is saved. `None` where the running totals
/// overflow the decimal range.
pub fn post_journal_entry(command: PostJournalEntryCommand) -> (r: Option<DomainResult<JournalEntry>>)
    ensures
        is_blank(command.description@) ==> (r matches Some(Err(e)) && is_validation(
            e,
            "La descripción del asiento no puede estar vacía"@,
        )),
        !is_blank(command.description@) && !lines_positive(command.lines@) ==> (r matches Some(Err(e))
            && is_validation(e, "La partida contable debe tener un monto positivo"@)),
        !is_blank(command.description@) && lines_positive(command.lines@) && command.lines@.len()
            < 2 ==> (r matches Some(Err(e)) && is_validation(
            e,
            "Un asiento publicado requiere al menos dos partidas"@,
        )),
        ({
            let ps = line_postings(command.lines@);
            !is_blank(command.description@) && lines_positive(command.lines@) && ps.len() >= 2 ==> {
                &&& (r is None <==> tally(ps, books_currency(ps)) is Overflow)
                &&& (r matches Some(res) ==> balanced_outcome(ps, verdict_of(res)))
                &&& (exact_books(ps) ==> (r matches Some(res) && (res is Ok <==> side_total(
                    ps,
                    PostingSide::Debit,
                ) == side_total(ps, PostingSide::Credit))))
            }
        }),
        r matches Some(Ok(e)) ==> e@.description == command.description@ && e@.postings
            == line_postings(command.lines@) && e@.posted && e@.events.len() == 1,
{
    let mut entry = match JournalEntry::draft(command.description.as_str()) {
        Ok(e) => e,
        Err(e) => {
            return Some(Err(e));
        },
    };
    let ghost lines = command.lines@;
    let n = command.lines.len();
    let mut i: usize = 0;
    while i < n
        invariant
            n == lines.len(),
            lines == command.lines@,
            i <= n,
            entry@.postings == line_postings(lines.take(i as int)),
            !entry@.posted,
            entry@.events.len() == 0,
            entry@.description == command.description@,
            !is_blank(command.description@),
            forall|j: int| 0 <= j < i ==> (#[trigger] lines[j]).amount.amount.value() > 0,
        decreases n - i,
    {
        let line = command.lines[i];
        let posting = match Posting::new(line.account_id, line.side, line.amount) {
            Ok(p) => p,
            Err(e) => {
                return Some(Err(e));
            },
        };
        if let Err(e) = entry.add_posting(posting) {
            return Some(Err(e));
        }
        assert(line_postings(lines.take(i + 1)) =~= line_postings(lines.take(i as int)).push(
            posting,
        ));
        i = i + 1;
    }
    assert(lines.take(n as int) =~= lines);
    match entry.checked_post() {
        None => None,
        Some(Err(e)) => Some(Err(e)),
        Some(Ok(())) => Some(Ok(entry)),
    }
}

/// Query for the balance of an account.
#[derive(Debug, Clone, Copy)]
pub struct GetAccountBalanceQuery {
    /// The account.
    pub account_id: AccountId,
    /// Currency the balance is kept in.
    pub currency: Currency,
}

/// Running balance while the postings of an account are read in order.
#[derive(Debug, Clone, Copy)]
pub enum BalanceFold {
    /// Debits minus credits so far.
    Running(Money),
    /// A posting of the account in another currency than the balance.
    Mismatch { expected: Currency, found: Currency },
    /// The balance overflowed the decimal range.
    Overflow,
}

/// Applies one posting to the balance of `account`: postings of other accounts are skipped,
/// a debit is added and a credit subtracted, as `Money::add` and `Money::subtract` do.
pub open spec fn balance_step(acc: BalanceFold, p: Posting, account: AccountId) -> BalanceFold {
    match acc {
        BalanceFold::Running(m) => {
            if p.account_spec().bits() != account.bits() {
                acc
            } else {
                let a = p.amount_spec();
                if a.currency != m.currency {
                    BalanceFold::Mismatch { expected: m.currency, found: a.currency }
                } else {
                    let next = match p.side_spec() {
                        PostingSide::Debit => m.amount.sum_spec(a.amount),
                        PostingSide::Credit => m.amount.difference_spec(a.amount),
                    };
                    match next {
                        Some(x) => BalanceFold::Running(Money { amount: x, currency: m.currency }),
                        None => BalanceFold::Overflow,
                    }
                }
            }
        },
        _ => acc,
    }
}

/// The balance of `account` after reading `ps` in order, from zero in `currency`.
pub open spec fn balance_fold(ps: Seq<Posting>, account: AccountId, currency: Currency) -> BalanceFold
    decreases ps.len(),
{
    if ps.len() == 0 {
        BalanceFold::Running(Money::zero_spec(currency))
    } else {
        balance_step(balance_fold(ps.drop_last(), account, currency), ps.last(), account)
    }
}

/// The postings of the entries, entry after entry.
pub open spec fn entries_postings(entries: Seq<JournalEntry>) -> Seq<Posting>
    decreases entries.len(),
{
    if entries.len() == 0 {
        Seq::empty()
    } else {
        entries_postings(entries.drop_last()) + entries.last()@.postings
    }
}

/// The exact debits minus credits of `account`, in units of 10^-28.
pub open spec fn account_net(ps: Seq<Posting>, account: AccountId) -> int
    decreases ps.len(),
{
    if ps.len() == 0 {
        0
    } else {
        let p = ps.last();
        account_net(ps.drop_last(), account) + if p.account_spec().bits() != account.bits() {
            0
        } else if p.side_spec() == PostingSide::Debit {
            p.amount_spec().amount.value()
        } else {
            -p.amount_spec().amount.value()
        }
    }
}

/// The postings of `account` are in `currency`, have scales up to `s`, and no running
/// balance needs rounding at scale `s`.
pub open spec fn account_books_exact(ps: Seq<Posting>, account: AccountId, currency: Currency, s: nat) -> bool
    decreases ps.len(),
{
    ps.len() == 0 || (account_books_exact(ps.drop_last(), account, currency, s) && (
    ps.last().account_spec().bits() == account.bits() ==> {
        &&& ps.last().amount_spec().currency == currency
        &&& ps.last().amount_spec().amount.scale_spec() <= s
        &&& within_range(account_net(ps, account), s)
    }))
}

/// What the balance query answers for the fold `b`.
pub open spec fn balance_answer(b: BalanceFold, r: DomainResult<Money>) -> bool {
    match b {
        BalanceFold::Running(m) => r == Ok::<Money, DomainError>(m),
        BalanceFold::Mismatch { expected, found } => r is Err && Money::is_mismatch_of(
            r->Err_0,
            expected,
            found,
        ),
        BalanceFold::Overflow => true,
    }
}

/// The balance of an account over the posted entries: its debits minus its credits, in the
/// currency of the query. `None` where the balance overflows the decimal range.
pub fn account_balance(entries: &[JournalEntry], query: GetAccountBalanceQuery) -> (r: Option<
    DomainResult<Money>,
>)
    ensures
        ({
            let b = balance_fold(entries_postings(entries@), query.account_id, query.currency);
            &&& (r is None <==> b is Overflow)
            &&& (r matches Some(res) ==> balance_answer(b, res))
        }),
        ({
            let ps = entries_postings(entries@);
            account_books_exact(ps, query.account_id, query.currency, max_scale(ps)) ==> (r matches Some(
                Ok(m),
            ) && m.currency == query.currency && m.amount.value() == account_net(ps, query.account_id))
        }),
{
    proof {
        Amount::lemma_zero_spec();
    }
    let ghost es = entries@;
    let ghost flat = entries_postings(es);
    let ghost s = max_scale(flat);
    let ghost account = query.account_id;
    let ghost currency = query.currency;
    let mut acc = BalanceFold::Running(Money::zero(query.currency));
    let ghost mut done: Seq<Posting> = Seq::empty();
    let n = entries.len();
    let mut i: usize = 0;
    assert(es.take(0) =~= Seq::<JournalEntry>::empty());
    while i < n
        invariant
            n == es.len(),
            es == entries@,
            i <= n,
            done == entries_postings(es.take(i as int)),
            acc == balance_fold(done, account, currency),
            account_books_exact(done, account, currency, s) ==> (acc matches BalanceFold::Running(m)
                && m.currency == currency && m.amount.value() == account_net(done, account)
                && m.amount.scale_spec() <= s),
            account == query.account_id,
            currency == query.currency,
        decreases n - i,
    {
        let postings = entries[i].postings();
        let ghost start = done;
        let m_len = postings.len();
        let mut j: usize = 0;
        assert(postings@.take(0) =~= Seq::<Posting>::empty());
        assert(start + postings@.take(0) =~= start);
        while j < m_len
            invariant
                m_len == postings@.len(),
                j <= m_len,
                done == start + postings@.take(j as int),
                acc == balance_fold(done, account, currency),
                account_books_exact(done, account, currency, s) ==> (acc matches BalanceFold::Running(
                    m,
                ) && m.currency == currency && m.amount.value() == account_net(done, account)
                    && m.amount.scale_spec() <= s),
                account == query.account_id,
                currency == query.currency,
            decreases m_len - j,
        {
            let p = postings[j];
            let ghost next = done.push(p);
            let ghost exact = account_books_exact(next, account, currency, s);
            proof {
                assert(next.drop_last() =~= done);
                assert(next.last() == p);
            }
            acc = match acc {
                BalanceFold::Running(m) => {
                    if !p.account_id().same_as(&query.account_id) {
                        BalanceFold::Running(m)
                    } else {
                        let a = p.amount();
                        if a.currency != m.currency {
                            BalanceFold::Mismatch { expected: m.currency, found: a.currency }
                        } else {
                            // The scale getters bring in that both scales are at most 28.
                            let _scales = (m.amount.scale(), a.amount.scale());
                            match p.side() {
                                PostingSide::Debit => {
                                    proof {
                                        if exact {
                                            lemma_fits_from_range(
                                                account_net(next, account),
                                                s,
                                                m.amount.scale_spec() as int,
                                                a.amount.scale_spec() as int,
                                            );
                                        }
                                    }
                                    match m.amount.checked_add(a.amount) {
                                        Some(x) => BalanceFold::Running(Money::new(x, m.currency)),
                                        None => BalanceFold::Overflow,
                                    }
                                },
                                PostingSide::Credit => {
                                    proof {
                                        if exact {
                                            lemma_fits_from_range(
                                                account_net(next, account),
                                                s,
                                                m.amount.scale_spec() as int,
                                                a.amount.scale_spec() as int,
                                            );
                                        }
                                    }
                                    match m.amount.checked_sub(a.amount) {
                                        Some(x) => BalanceFold::Running(Money::new(x, m.currency)),
                                        None => BalanceFold::Overflow,
                                    }
                                },
                            }
                        }
                    }
                },
                other => other,
            };
            proof {
                done = next;
                assert(postings@.take(j + 1) =~= postings@.take(j as int).push(p));
                assert(done =~= start + postings@.take(j + 1));
            }
            j = j + 1;
        }
        proof {
            assert(postings@.take(m_len as int) =~= postings@);
            assert(es.take(i + 1).drop_last() =~= es.take(i as int));
            assert(es.take(i + 1).last() == es[i as int]);
        }
        i = i + 1;
    }
    assert(es.take(n as int) =~= es);
    match acc {
        BalanceFold::Running(m) => Some(Ok(m)),
        BalanceFold::Mismatch { expected, found } => Some(
            Err(
                DomainError::CurrencyMismatch {
                    left: expected.code().to_owned(),
                    right: found.code().to_owned(),
                },
            ),
        ),
        BalanceFold::Overflow => None,
    }
}

} // verus!
