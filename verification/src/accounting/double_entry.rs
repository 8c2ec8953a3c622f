use vstd::prelude::*;

use crate::accounting::posting::{Posting, PostingSide};
use crate::shared::amount::{lemma_fits_from_range, within_range};
use crate::shared::currency::Currency;
use crate::shared::errors::{is_validation, DomainError, DomainResult};
use crate::shared::money::Money;

verus! {

/// Running double-entry totals while postings are read in order.
#[derive(Debug, Clone, Copy)]
pub enum PostingTally {
    /// Debits and credits added so far.
    Running { debits: Money, credits: Money },
    /// A posting was found in another currency than the totals.
    Mismatch { expected: Currency, found: Currency },
    /// A total overflowed the decimal range.
    Overflow,
}

/// Adds one posting to the totals of its side, as `Money::add` does: a posting in another
/// currency stops the tally, as does an overflowing decimal addition.
pub open spec fn tally_step(t: PostingTally, p: Posting) -> PostingTally {
    match t {
        PostingTally::Running { debits, credits } => {
            let m = p.amount_spec();
            match p.side_spec() {
                PostingSide::Debit => {
                    if m.currency != debits.currency {
                        PostingTally::Mismatch { expected: debits.currency, found: m.currency }
                    } else {
                        match debits.amount.sum_spec(m.amount) {
                            Some(x) => PostingTally::Running {
                                debits: Money { amount: x, currency: debits.currency },
                                credits,
                            },
                            None => PostingTally::Overflow,
                        }
                    }
                },
                PostingSide::Credit => {
                    if m.currency != credits.currency {
                        PostingTally::Mismatch { expected: credits.currency, found: m.currency }
                    } else {
                        match credits.amount.sum_spec(m.amount) {
                            Some(x) => PostingTally::Running {
                                debits,
                                credits: Money { amount: x, currency: credits.currency },
                            },
                            None => PostingTally::Overflow,
                        }
                    }
                },
            }
        },
        _ => t,
    }
}

/// The totals after reading `ps` in order, starting from zero in `currency`.
pub open spec fn tally(ps: Seq<Posting>, currency: Currency) -> PostingTally
    decreases ps.len(),
{
    if ps.len() == 0 {
        PostingTally::Running {
            debits: Money::zero_spec(currency),
            credits: Money::zero_spec(currency),
        }
    } else {
        tally_step(tally(ps.drop_last(), currency), ps.last())
    }
}

/// The currency of the first posting, in which the totals are kept.
pub open spec fn books_currency(ps: Seq<Posting>) -> Currency {
    ps[0].amount_spec().currency
}

/// What a posting adds to the total of `side`, in units of 10^-28.
pub open spec fn side_amount(p: Posting, side: PostingSide) -> int {
    if p.side_spec() == side {
        p.amount_spec().amount.value()
    } else {
        0
    }
}

/// The exact sum of the amounts on one side, in units of 10^-28.
pub open spec fn side_total(ps: Seq<Posting>, side: PostingSide) -> int
    decreases ps.len(),
{
    if ps.len() == 0 {
        0
    } else {
        side_total(ps.drop_last(), side) + side_amount(ps.last(), side)
    }
}

/// Removing one posting takes its amount off the total of its side.
proof fn lemma_side_total_remove(ps: Seq<Posting>, i: int, side: PostingSide)
    requires
        0 <= i < ps.len(),
    ensures
        side_total(ps, side) == side_total(ps.remove(i), side) + side_amount(ps[i], side),
    decreases ps.len(),
{
    if i == ps.len() - 1 {
        assert(ps.remove(i) =~= ps.drop_last());
    } else {
        let rest = ps.remove(i);
        lemma_side_total_remove(ps.drop_last(), i, side);
        assert(rest.drop_last() =~= ps.drop_last().remove(i));
        assert(rest.last() == ps.last());
    }
}

/// The total of a side does not depend on the order of the postings.
proof fn lemma_side_total_reordered(ps: Seq<Posting>, qs: Seq<Posting>, side: PostingSide)
    requires
        ps.to_multiset() =~= qs.to_multiset(),
    ensures
        side_total(ps, side) == side_total(qs, side),
    decreases ps.len(),
{
    broadcast use vstd::seq_lib::group_to_multiset_ensures, vstd::multiset::group_multiset_axioms;

    if ps.len() == 0 {
        assert(qs.to_multiset().len() == 0);
        assert(qs =~= Seq::<Posting>::empty());
    } else {
        let x = ps.last();
        let rest = ps.drop_last();
        assert(rest.push(x) =~= ps);
        assert(ps.to_multiset() =~= rest.to_multiset().insert(x));
        assert(qs.to_multiset().count(x) > 0);
        assert(qs.contains(x));
        let i = choose|i: int| 0 <= i < qs.len() && qs[i] == x;
        lemma_side_total_remove(qs, i, side);
        assert(qs.remove(i).to_multiset() =~= qs.to_multiset().remove(x));
        assert(rest.to_multiset() =~= qs.remove(i).to_multiset());
        lemma_side_total_reordered(rest, qs.remove(i), side);
    }
}

/// Every posting is in `currency`.
pub open spec fn in_currency(ps: Seq<Posting>, currency: Currency) -> bool {
    forall|i: int| 0 <= i < ps.len() ==> (#[trigger] ps[i]).amount_spec().currency == currency
}

/// The largest scale among the amounts of `ps`.
pub open spec fn max_scale(ps: Seq<Posting>) -> nat
    decreases ps.len(),
{
    if ps.len() == 0 {
        0
    } else {
        let s = ps.last().amount_spec().amount.scale_spec() as nat;
        let m = max_scale(ps.drop_last());
        if s > m {
            s
        } else {
            m
        }
    }
}

/// After every prefix of `ps`, the exact totals of both sides are within the decimal range
/// at scale `s`.
pub open spec fn totals_within(ps: Seq<Posting>, s: nat) -> bool
    decreases ps.len(),
{
    ps.len() == 0 || (totals_within(ps.drop_last(), s) && within_range(
        side_total(ps, PostingSide::Debit),
        s,
    ) && within_range(side_total(ps, PostingSide::Credit), s))
}

/// The postings are in one currency and no running total ever needs rounding: decimal
/// arithmetic on them is exact.
pub open spec fn exact_books(ps: Seq<Posting>) -> bool {
    ps.len() > 0 && in_currency(ps, books_currency(ps)) && totals_within(ps, max_scale(ps))
}

/// The text of the error for postings whose debits and credits differ.
pub open spec fn unbalanced_text() -> Seq<char> {
    "El asiento no cumple partida doble: débitos y créditos difieren"@
}

/// The text of the error for an empty list of postings.
pub open spec fn no_postings_text() -> Seq<char> {
    "Un asiento debe tener al menos dos partidas"@
}

/// What `validate_balanced` answers (`r`) for the postings `ps`: at least one posting is
/// needed; the running totals decide; where no total is rounded, the postings balance
/// exactly when the exact sums of both sides agree.
pub open spec fn balanced_outcome(ps: Seq<Posting>, r: DomainResult<()>) -> bool {
    &&& ps.len() == 0 ==> r is Err && is_validation(r->Err_0, no_postings_text())
    &&& ps.len() > 0 ==> balance_verdict(tally(ps, books_currency(ps)), r)
    &&& exact_books(ps) ==> (r is Ok <==> side_total(ps, PostingSide::Debit) == side_total(
        ps,
        PostingSide::Credit,
    ))
    &&& exact_books(ps) ==> (r is Err ==> is_validation(r->Err_0, unbalanced_text()))
}

/// The double-entry verdict does not depend on the order of the postings, wherever no
/// running total has to be rounded in either order: both orders are accepted, or both are
/// refused with the same error.
pub proof fn lemma_balance_ignores_order(
    ps: Seq<Posting>,
    qs: Seq<Posting>,
    r: DomainResult<()>,
    s: DomainResult<()>,
)
    requires
        ps.to_multiset() =~= qs.to_multiset(),
        exact_books(ps),
        exact_books(qs),
        balanced_outcome(ps, r),
        balanced_outcome(qs, s),
    ensures
        r is Ok <==> s is Ok,
        r is Err ==> is_validation(r->Err_0, unbalanced_text()) && is_validation(
            s->Err_0,
            unbalanced_text(),
        ),
{
    lemma_side_total_reordered(ps, qs, PostingSide::Debit);
    lemma_side_total_reordered(ps, qs, PostingSide::Credit);
}

/// While the totals keep running, every posting read so far is in their currency.
proof fn lemma_running_in_currency(ps: Seq<Posting>, currency: Currency)
    requires
        tally(ps, currency) is Running,
    ensures
        in_currency(ps, currency),
        tally(ps, currency) matches PostingTally::Running { debits, credits } && debits.currency
            == currency && credits.currency == currency,
    decreases ps.len(),
{
    if ps.len() > 0 {
        let rest = ps.drop_last();
        lemma_running_in_currency(rest, currency);
        assert forall|i: int| 0 <= i < ps.len() implies (#[trigger] ps[i]).amount_spec().currency
            == currency by {
            if i < ps.len() - 1 {
                assert(ps[i] == rest[i]);
            }
        }
    }
}

/// Postings in more than one currency are refused with a currency mismatch, whatever their
/// order (on orders whose running totals do not overflow, where the check is defined).
pub proof fn lemma_mixed_currencies_refused_in_any_order(
    ps: Seq<Posting>,
    qs: Seq<Posting>,
    r: DomainResult<()>,
    s: DomainResult<()>,
)
    requires
        ps.to_multiset() =~= qs.to_multiset(),
        ps.len() > 0,
        !in_currency(ps, books_currency(ps)),
        !(tally(ps, books_currency(ps)) is Overflow),
        !(tally(qs, books_currency(qs)) is Overflow),
        balanced_outcome(ps, r),
        balanced_outcome(qs, s),
    ensures
        r is Err && r->Err_0 is CurrencyMismatch,
        s is Err && s->Err_0 is CurrencyMismatch,
{
    broadcast use vstd::seq_lib::group_to_multiset_ensures;

    if tally(ps, books_currency(ps)) is Running {
        lemma_running_in_currency(ps, books_currency(ps));
    }
    assert(qs.len() == ps.len()) by {
        assert(ps.to_multiset().len() == qs.to_multiset().len());
    }
    let j = choose|j: int| 0 <= j < ps.len() && (#[trigger] ps[j]).amount_spec().currency
        != books_currency(ps);
    assert(ps.contains(ps[0]));
    assert(ps.contains(ps[j]));
    assert(ps.to_multiset().count(ps[0]) > 0);
    assert(ps.to_multiset().count(ps[j]) > 0);
    assert(qs.to_multiset().count(ps[0]) > 0);
    assert(qs.to_multiset().count(ps[j]) > 0);
    assert(qs.contains(ps[0]));
    assert(qs.contains(ps[j]));
    let k0 = choose|k: int| 0 <= k < qs.len() && qs[k] == ps[0];
    let kj = choose|k: int| 0 <= k < qs.len() && qs[k] == ps[j];
    if in_currency(qs, books_currency(qs)) {
        assert(qs[k0].amount_spec().currency == books_currency(qs));
        assert(qs[kj].amount_spec().currency == books_currency(qs));
        assert(false);
    }
    if tally(qs, books_currency(qs)) is Running {
        lemma_running_in_currency(qs, books_currency(qs));
    }
}

/// What `validate_balanced` answers for the totals `t`.
pub open spec fn balance_verdict(t: PostingTally, r: DomainResult<()>) -> bool {
    match t {
        PostingTally::Running { debits, credits } => (r is Ok <==> debits.amount.value()
            == credits.amount.value()) && (r is Err ==> is_validation(r->Err_0, unbalanced_text())),
        PostingTally::Mismatch { expected, found } => r is Err && Money::is_mismatch_of(
            r->Err_0,
            expected,
            found,
        ),
        PostingTally::Overflow => true,
    }
}

proof fn lemma_max_scale_bounds(ps: Seq<Posting>, i: int)
    requires
        0 <= i < ps.len(),
    ensures
        ps[i].amount_spec().amount.scale_spec() <= max_scale(ps),
    decreases ps.len(),
{
    if i < ps.len() - 1 {
        lemma_max_scale_bounds(ps.drop_last(), i);
    }
}

/// Reads the postings in order and keeps the totals of each side in `currency`.
fn tally_postings(postings: &[Posting], currency: Currency) -> (t: PostingTally)
    ensures
        t == tally(postings@, currency),
        in_currency(postings@, currency) && totals_within(postings@, max_scale(postings@))
            ==> (t matches PostingTally::Running { debits, credits } && debits.currency == currency
            && credits.currency == currency && debits.amount.value() == side_total(
            postings@,
            PostingSide::Debit,
        ) && credits.amount.value() == side_total(postings@, PostingSide::Credit)),
{
    let ghost all = postings@;
    let ghost s = max_scale(all);
    let mut t = PostingTally::Running { debits: Money::zero(currency), credits: Money::zero(currency) };
    let n = postings.len();
    let mut i: usize = 0;
    assert(all.take(0) =~= Seq::<Posting>::empty());
    while i < n
        invariant
            n == all.len(),
            all == postings@,
            s == max_scale(all),
            i <= n,
            t == tally(all.take(i as int), currency),
            in_currency(all.take(i as int), currency) && totals_within(all.take(i as int), s) ==> (
            t matches PostingTally::Running { debits, credits } && debits.currency == currency
                && credits.currency == currency && debits.amount.value() == side_total(
                all.take(i as int),
                PostingSide::Debit,
            ) && credits.amount.value() == side_total(all.take(i as int), PostingSide::Credit)
                && debits.amount.scale_spec() <= s && credits.amount.scale_spec() <= s),
        decreases n - i,
    {
        let p = postings[i];
        let ghost before = t;
        let ghost prefix = all.take(i as int);
        let ghost next = all.take(i + 1);
        proof {
            assert(next.drop_last() =~= prefix);
            assert(next.last() == p);
            lemma_max_scale_bounds(all, i as int);
            if in_currency(next, currency) && totals_within(next, s) {
                assert(in_currency(prefix, currency)) by {
                    assert forall|j: int| 0 <= j < prefix.len() implies (
                    #[trigger] prefix[j]).amount_spec().currency == currency by {
                        assert(prefix[j] == next[j]);
                    }
                }
                assert(next[i as int] == p);
            }
        }
        let m = p.amount();
        t = match t {
            PostingTally::Running { debits, credits } => {
                match p.side() {
                    PostingSide::Debit => {
                        if m.currency != debits.currency {
                            PostingTally::Mismatch { expected: debits.currency, found: m.currency }
                        } else {
                            // The scale getters bring in that both scales are at most 28.
                            let _scales = (debits.amount.scale(), m.amount.scale());
                            proof {
                                if in_currency(next, currency) && totals_within(next, s) {
                                    lemma_fits_from_range(
                                        side_total(next, PostingSide::Debit),
                                        s,
                                        debits.amount.scale_spec() as int,
                                        m.amount.scale_spec() as int,
                                    );
                                }
                            }
                            match debits.amount.checked_add(m.amount) {
                                Some(x) => PostingTally::Running {
                                    debits: Money::new(x, debits.currency),
                                    credits,
                                },
                                None => PostingTally::Overflow,
                            }
                        }
                    },
                    PostingSide::Credit => {
                        if m.currency != credits.currency {
                            PostingTally::Mismatch { expected: credits.currency, found: m.currency }
                        } else {
                            // The scale getters bring in that both scales are at most 28.
                            let _scales = (credits.amount.scale(), m.amount.scale());
                            proof {
                                if in_currency(next, currency) && totals_within(next, s) {
                                    lemma_fits_from_range(
                                        side_total(next, PostingSide::Credit),
                                        s,
                                        credits.amount.scale_spec() as int,
                                        m.amount.scale_spec() as int,
                                    );
                                }
                            }
                            match credits.amount.checked_add(m.amount) {
                                Some(x) => PostingTally::Running {
                                    debits,
                                    credits: Money::new(x, credits.currency),
                                },
                                None => PostingTally::Overflow,
                            }
                        }
                    },
                }
            },
            other => other,
        };
        i = i + 1;
    }
    assert(all.take(n as int) =~= all);
    t
}

/// Domain service for the double-entry rule.
pub struct DoubleEntryService;

impl DoubleEntryService {
    /// Checks that debits and credits add up to the same amount. There must be at least one
    /// posting; all of them must be in the currency of the first; the sum of the debits must
    /// equal the sum of the credits.
    pub fn validate_balanced(postings: &[Posting]) -> (r: DomainResult<()>)
        requires
            postings@.len() > 0 ==> !(tally(postings@, books_currency(postings@)) is Overflow),
        ensures
            balanced_outcome(postings@, r),
    {
        if postings.len() == 0 {
            return Err(DomainError::validation("Un asiento debe tener al menos dos partidas"));
        }
        let currency = postings[0].amount().currency;
        match tally_postings(postings, currency) {
            PostingTally::Running { debits, credits } => {
                if debits.amount.equals(&credits.amount) {
                    Ok(())
                } else {
                    Err(
                        DomainError::validation(
                            "El asiento no cumple partida doble: débitos y créditos difieren",
                        ),
                    )
                }
            },
            PostingTally::Mismatch { expected, found } => Err(
                DomainError::CurrencyMismatch {
                    left: expected.code().to_owned(),
                    right: found.code().to_owned(),
                },
            ),
            PostingTally::Overflow => unreached(),
        }
    }

    /// The running totals of the postings in `currency`.
    pub fn totals(postings: &[Posting], currency: Currency) -> (t: PostingTally)
        ensures
            t == tally(postings@, currency),
            in_currency(postings@, currency) && totals_within(postings@, max_scale(postings@))
                ==> (t matches PostingTally::Running { debits, credits } && debits.amount.value()
                == side_total(postings@, PostingSide::Debit) && credits.amount.value() == side_total(
                postings@,
                PostingSide::Credit,
            )),
    {
        tally_postings(postings, currency)
    }

    /// `validate_balanced` where the running totals do not overflow; `None` where they do.
    pub fn checked_validate_balanced(postings: &[Posting]) -> (r: Option<DomainResult<()>>)
        ensures
            r is None <==> (postings@.len() > 0 && tally(postings@, books_currency(postings@)) is Overflow),
            exact_books(postings@) ==> r is Some,
            r matches Some(res) ==> balanced_outcome(postings@, res),
    {
        if postings.len() > 0 {
            let currency = postings[0].amount().currency;
            if let PostingTally::Overflow = tally_postings(postings, currency) {
                return None;
            }
        }
        Some(DoubleEntryService::validate_balanced(postings))
    }
}

} // verus!
