use vstd::prelude::*;

use crate::invoicing::invoice::{
    exact_lines, line_error_text, line_sum, lines_total, mismatch_verdict, mixed_currency_text,
    no_lines_text, Invoice, InvoiceLine, InvoiceStatus, LineState,
};
use crate::invoicing::invoice_number::InvoiceNumber;
use crate::shared::entity_id::CustomerId;
use crate::shared::errors::{is_validation, DomainResult};
use crate::shared::money::Money;
use crate::shared::text::is_blank;

verus! {

/// One line of the command that issues an invoice.
#[derive(Debug, Clone)]
pub struct IssueInvoiceLineCommand {
    /// Description.
    pub description: String,
    /// Quantity.
    pub quantity: u32,
    /// Unit price.
    pub unit_price: Money,
}

/// Command that issues an invoice.
#[derive(Debug, Clone)]
pub struct IssueInvoiceCommand {
    /// Number of the invoice.
    pub number: InvoiceNumber,
    /// The invoiced customer.
    pub customer_id: CustomerId,
    /// The lines, in order.
    pub lines: Vec<IssueInvoiceLineCommand>,
}

impl IssueInvoiceCommand {
    /// The invoice of a form: one line.
    pub fn single_line(
        number: InvoiceNumber,
        customer_id: CustomerId,
        description: String,
        quantity: u32,
        unit_price: Money,
    ) -> (r: IssueInvoiceCommand)
        ensures
            r.number@ == number@,
            r.customer_id == customer_id,
            r.lines@.len() == 1,
            r.lines@[0].description@ == description@,
            r.lines@[0].quantity == quantity,
            r.lines@[0].unit_price == unit_price,
    {
        let mut lines = Vec::new();
        lines.push(IssueInvoiceLineCommand { description, quantity, unit_price });
        IssueInvoiceCommand { number, customer_id, lines }
    }
}

/// The line that a command line becomes.
pub open spec fn command_line_state(c: IssueInvoiceLineCommand) -> LineState {
    LineState { description: c.description@, quantity: c.quantity, unit_price: c.unit_price }
}

/// The lines that the command lines become.
pub open spec fn command_lines(cs: Seq<IssueInvoiceLineCommand>) -> Seq<LineState> {
    cs.map_values(|c: IssueInvoiceLineCommand| command_line_state(c))
}

/// The command line makes a valid invoice line.
pub open spec fn command_line_valid(c: IssueInvoiceLineCommand) -> bool {
    !is_blank(c.description@) && c.quantity > 0 && c.unit_price.amount.value() > 0
}

/// How the lines of a command fare when they are added to the draft in order.
pub enum LinesCheck {
    /// Every line was added.
    Accepted,
    /// A line was invalid, or in another currency than the first: the text of the error.
    Refused(Seq<char>),
    /// Comparing a line with the first overflowed the decimal range.
    Overflow,
}

/// Adds the command lines in order: each must be a valid line, and every line after the
/// first must have the currency of the first, which `add_line` checks by adding the two
/// unit prices.
pub open spec fn lines_check(cs: Seq<IssueInvoiceLineCommand>) -> LinesCheck
    decreases cs.len(),
{
    if cs.len() == 0 {
        LinesCheck::Accepted
    } else {
        match lines_check(cs.drop_last()) {
            LinesCheck::Accepted => {
                let c = cs.last();
                if !command_line_valid(c) {
                    LinesCheck::Refused(line_error_text(c.description@, c.quantity, c.unit_price))
                } else if cs.len() > 1 && c.unit_price.currency != cs[0].unit_price.currency {
                    LinesCheck::Refused(mixed_currency_text())
                } else if cs.len() > 1 && cs[0].unit_price.amount.sum_spec(c.unit_price.amount) is None {
                    LinesCheck::Overflow
                } else {
                    LinesCheck::Accepted
                }
            },
            other => other,
        }
    }
}

proof fn lemma_lines_check_stops(cs: Seq<IssueInvoiceLineCommand>, k: int)
    requires
        0 <= k <= cs.len(),
        !(lines_check(cs.take(k)) is Accepted),
    ensures
        lines_check(cs) == lines_check(cs.take(k)),
    decreases cs.len() - k,
{
    if k < cs.len() {
        assert(cs.take(k + 1).drop_last() =~= cs.take(k));
        lemma_lines_check_stops(cs, k + 1);
    } else {
        assert(cs.take(k) =~= cs);
    }
}

/// What issuing answers once every line was accepted.
pub open spec fn issue_verdict(lines: Seq<LineState>, r: Option<DomainResult<Invoice>>) -> bool {
    &&& lines.len() == 0 ==> (r matches Some(Err(e)) && is_validation(e, no_lines_text()))
    &&& lines.len() > 0 ==> {
        let t = line_sum(lines, lines[0].unit_price.currency);
        &&& (r is None <==> t is Overflow)
        &&& (r matches Some(res) ==> (res is Ok <==> t is Running))
        &&& (r matches Some(Err(e)) ==> mismatch_verdict(t, e))
        &&& (exact_lines(lines) ==> (r matches Some(Ok(inv)) && inv@.events.last().total.amount.value()
            == lines_total(lines)))
    }
}

/// Drafts the invoice of the command, adds its lines in order and issues it: the part of
/// issuing an invoice that decides, before it is saved. `None` where a decimal addition
/// overflows.
pub fn issue_invoice(command: IssueInvoiceCommand) -> (r: Option<DomainResult<Invoice>>)
    ensures
        lines_check(command.lines@) matches LinesCheck::Refused(m) ==> (r matches Some(Err(e))
            && is_validation(e, m)),
        lines_check(command.lines@) is Overflow ==> r is None,
        lines_check(command.lines@) is Accepted ==> issue_verdict(command_lines(command.lines@), r),
        r matches Some(Ok(inv)) ==> inv@.status == InvoiceStatus::Issued && inv@.number
            == command.number@ && inv@.customer_id == command.customer_id.bits() && inv@.lines
            == command_lines(command.lines@) && inv@.events.len() == 1,
{
    let ghost cs = command.lines@;
    let mut invoice = Invoice::draft(command.number, command.customer_id);
    let n = command.lines.len();
    let mut i: usize = 0;
    assert(cs.take(0) =~= Seq::<IssueInvoiceLineCommand>::empty());
    while i < n
        invariant
            n == cs.len(),
            cs == command.lines@,
            i <= n,
            lines_check(cs.take(i as int)) is Accepted,
            invoice@.lines == command_lines(cs.take(i as int)),
            invoice@.status == InvoiceStatus::Draft,
            invoice@.events.len() == 0,
            invoice@.number == command.number@,
            invoice@.customer_id == command.customer_id.bits(),
        decreases n - i,
    {
        let c = &command.lines[i];
        let ghost next = cs.take(i + 1);
        proof {
            assert(next.drop_last() =~= cs.take(i as int));
            assert(next.last() == *c);
            if i > 0 {
                assert(next[0] == cs[0]);
                assert(invoice@.lines[0] == command_line_state(cs[0]));
            }
        }
        let line = match InvoiceLine::new(c.description.as_str(), c.quantity, c.unit_price) {
            Ok(l) => l,
            Err(e) => {
                proof {
                    lemma_lines_check_stops(cs, i + 1);
                }
                return Some(Err(e));
            },
        };
        match invoice.checked_add_line(line) {
            None => {
                proof {
                    lemma_lines_check_stops(cs, i + 1);
                }
                return None;
            },
            Some(Err(e)) => {
                proof {
                    lemma_lines_check_stops(cs, i + 1);
                }
                return Some(Err(e));
            },
            Some(Ok(())) => {},
        }
        assert(command_lines(next) =~= command_lines(cs.take(i as int)).push(command_line_state(*c)));
        i = i + 1;
    }
    assert(cs.take(n as int) =~= cs);
    match invoice.checked_issue() {
        None => None,
        Some(Err(e)) => Some(Err(e)),
        Some(Ok(())) => Some(Ok(invoice)),
    }
}

} // verus!
