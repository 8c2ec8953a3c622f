use vstd::prelude::*;

use crate::invoicing::invoice_number::InvoiceNumber;
use crate::shared::amount::{lemma_fits_from_range, within_range, Amount, MAX_MANTISSA};
use crate::shared::currency::Currency;
use crate::shared::entity_id::{CustomerId, EntityId, InvoiceId};
use crate::shared::errors::{is_invalid_operation, is_validation, DomainError, DomainResult};
use crate::shared::money::Money;
use crate::shared::text::{is_blank, is_blank_str, str_equals};
use crate::shared::timestamp::Timestamp;

verus! {

/// Status of an invoice.
#[derive(Debug, Clone, Copy, PartialEq, Eq, Structural)]
pub enum InvoiceStatus {
    /// Editable draft.
    Draft,
    /// Issued and awaiting payment.
    Issued,
    /// Paid.
    Paid,
    /// Canceled.
    Canceled,
}

impl InvoiceStatus {
    /// Stored code of the status.
    pub open spec fn code_spec(self) -> Seq<char> {
        match self {
            InvoiceStatus::Draft => "draft"@,
            InvoiceStatus::Issued => "issued"@,
            InvoiceStatus::Paid => "paid"@,
            InvoiceStatus::Canceled => "canceled"@,
        }
    }

    /// The status whose stored code is `s`, if any.
    pub open spec fn parse_spec(s: Seq<char>) -> Option<InvoiceStatus> {
        if s == "draft"@ {
            Some(InvoiceStatus::Draft)
        } else if s == "issued"@ {
            Some(InvoiceStatus::Issued)
        } else if s == "paid"@ {
            Some(InvoiceStatus::Paid)
        } else if s == "canceled"@ {
            Some(InvoiceStatus::Canceled)
        } else {
            None
        }
    }

    /// Stored code of the status.
    pub fn code(self) -> (r: &'static str)
        ensures
            r@ == self.code_spec(),
            self == InvoiceStatus::Draft ==> r@ == "draft"@,
            self == InvoiceStatus::Issued ==> r@ == "issued"@,
            self == InvoiceStatus::Paid ==> r@ == "paid"@,
            self == InvoiceStatus::Canceled ==> r@ == "canceled"@,
    {
        match self {
            InvoiceStatus::Draft => "draft",
            InvoiceStatus::Issued => "issued",
            InvoiceStatus::Paid => "paid",
            InvoiceStatus::Canceled => "canceled",
        }
    }

    /// Reads a stored status; any other text is a validation error.
    pub fn from_code(value: &str) -> (r: DomainResult<InvoiceStatus>)
        ensures
            r is Ok <==> InvoiceStatus::parse_spec(value@) is Some,
            r matches Ok(s) ==> InvoiceStatus::parse_spec(value@) == Some(s),
            value@ == "draft"@ ==> r == Ok::<InvoiceStatus, DomainError>(InvoiceStatus::Draft),
            value@ == "issued"@ ==> r == Ok::<InvoiceStatus, DomainError>(InvoiceStatus::Issued),
            value@ == "paid"@ ==> r == Ok::<InvoiceStatus, DomainError>(InvoiceStatus::Paid),
            value@ == "canceled"@ ==> r == Ok::<InvoiceStatus, DomainError>(InvoiceStatus::Canceled),
            r is Err ==> (r->Err_0 matches DomainError::Validation(m) && m@
                == "Estado de factura no válido: "@ + value@),
    {
        proof {
            lemma_invoice_status_codes();
        }
        if str_equals(value, "draft") {
            Ok(InvoiceStatus::Draft)
        } else if str_equals(value, "issued") {
            Ok(InvoiceStatus::Issued)
        } else if str_equals(value, "paid") {
            Ok(InvoiceStatus::Paid)
        } else if str_equals(value, "canceled") {
            Ok(InvoiceStatus::Canceled)
        } else {
            let mut message = "Estado de factura no válido: ".to_owned();
            message.append(value);
            Err(DomainError::Validation(message))
        }
    }
}

/// Each status is stored under its own code: `draft`, `issued`, `paid` and `canceled`, and
/// each code is read back as that status.
pub proof fn lemma_invoice_status_codes()
    ensures
        InvoiceStatus::Draft.code_spec() == "draft"@,
        InvoiceStatus::Issued.code_spec() == "issued"@,
        InvoiceStatus::Paid.code_spec() == "paid"@,
        InvoiceStatus::Canceled.code_spec() == "canceled"@,
        InvoiceStatus::parse_spec("draft"@) == Some(InvoiceStatus::Draft),
        InvoiceStatus::parse_spec("issued"@) == Some(InvoiceStatus::Issued),
        InvoiceStatus::parse_spec("paid"@) == Some(InvoiceStatus::Paid),
        InvoiceStatus::parse_spec("canceled"@) == Some(InvoiceStatus::Canceled),
{
    lemma_invoice_status_round_trip(InvoiceStatus::Draft);
    lemma_invoice_status_round_trip(InvoiceStatus::Issued);
    lemma_invoice_status_round_trip(InvoiceStatus::Paid);
    lemma_invoice_status_round_trip(InvoiceStatus::Canceled);
}

/// Reading the stored code of a status gives the status back.
pub proof fn lemma_invoice_status_round_trip(status: InvoiceStatus)
    ensures
        InvoiceStatus::parse_spec(status.code_spec()) == Some(status),
{
    reveal_strlit("draft");
    reveal_strlit("issued");
    reveal_strlit("paid");
    reveal_strlit("canceled");
    assert("draft"@[0] != "issued"@[0]);
    assert("draft"@[0] != "paid"@[0]);
    assert("draft"@[0] != "canceled"@[0]);
    assert("issued"@[0] != "paid"@[0]);
    assert("issued"@[0] != "canceled"@[0]);
    assert("paid"@[0] != "canceled"@[0]);
}

/// The changes of status an invoice may go through: a draft is issued, an issued invoice
/// is paid, and a draft or an issued invoice is canceled.
pub open spec fn status_step(from: InvoiceStatus, to: InvoiceStatus) -> bool {
    ||| (from == InvoiceStatus::Draft && to == InvoiceStatus::Issued)
    ||| (from == InvoiceStatus::Issued && to == InvoiceStatus::Paid)
    ||| ((from == InvoiceStatus::Draft || from == InvoiceStatus::Issued) && to
        == InvoiceStatus::Canceled)
}

/// No change of status leads back to a draft.
pub proof fn lemma_no_return_to_draft(from: InvoiceStatus, to: InvoiceStatus)
    requires
        status_step(from, to),
    ensures
        to != InvoiceStatus::Draft,
{
}

/// Paid and canceled invoices are settled: no change of status leaves them.
pub proof fn lemma_settled_is_final(from: InvoiceStatus, to: InvoiceStatus)
    requires
        from == InvoiceStatus::Paid || from == InvoiceStatus::Canceled,
    ensures
        !status_step(from, to),
{
}

/// What an invoice line holds.
pub struct LineState {
    pub description: Seq<char>,
    pub quantity: u32,
    pub unit_price: Money,
}

impl LineState {
    /// `unit_price * quantity`, as `InvoiceLine::total` computes it; `None` where the
    /// decimal multiplication overflows.
    pub open spec fn total_spec(self) -> Option<Money> {
        match self.unit_price.amount.product_spec(self.quantity) {
            Some(a) => Some(Money { amount: a, currency: self.unit_price.currency }),
            None => None,
        }
    }

    /// The exact value of `unit_price * quantity`, in units of 10^-28.
    pub open spec fn exact_total(self) -> int {
        self.unit_price.amount.value() * self.quantity
    }

    /// `unit_price * quantity` needs no rounding.
    pub open spec fn product_fits(self) -> bool {
        -MAX_MANTISSA <= self.unit_price.amount.mantissa_spec() * self.quantity <= MAX_MANTISSA
    }
}

/// The text of the error for the first rule a line breaks: a blank description, then a
/// quantity of zero, then a unit price that is not above zero.
pub open spec fn line_error_text(description: Seq<char>, quantity: u32, unit_price: Money) -> Seq<
    char,
> {
    if is_blank(description) {
        "La descripción de la línea no puede estar vacía"@
    } else if quantity == 0 {
        "La cantidad facturada debe ser mayor que cero"@
    } else {
        "El precio unitario debe ser mayor que cero"@
    }
}

/// A line of an invoice: a description that is not blank, a quantity above zero and a unit
/// price above zero.
#[derive(Debug, PartialEq, Eq)]
pub struct InvoiceLine {
    description: String,
    quantity: u32,
    unit_price: Money,
}

impl View for InvoiceLine {
    type V = LineState;

    closed spec fn view(&self) -> LineState {
        LineState {
            description: self.description@,
            quantity: self.quantity,
            unit_price: self.unit_price,
        }
    }
}

impl Clone for InvoiceLine {
    fn clone(&self) -> (r: Self)
        ensures
            r@ == self@,
    {
        proof {
            use_type_invariant(self);
        }
        InvoiceLine {
            description: self.description.clone(),
            quantity: self.quantity,
            unit_price: self.unit_price,
        }
    }
}

impl InvoiceLine {
    #[verifier::type_invariant]
    spec fn well_formed(self) -> bool {
        &&& !is_blank(self.description@)
        &&& self.quantity > 0
        &&& self.unit_price.amount.value() > 0
    }

    /// A validated line: the description may not be blank, the quantity must be above zero
    /// and the unit price above zero.
    pub fn new(description: &str, quantity: u32, unit_price: Money) -> (r: DomainResult<
        InvoiceLine,
    >)
        ensures
            r is Ok <==> !is_blank(description@) && quantity > 0 && unit_price.amount.value() > 0,
            r is Err ==> is_validation(
                r->Err_0,
                line_error_text(description@, quantity, unit_price),
            ),
            r matches Ok(l) ==> l@ == (LineState { description: description@, quantity, unit_price }),
    {
        if is_blank_str(description) {
            return Err(
                DomainError::validation("La descripción de la línea no puede estar vacía"),
            );
        }
        if quantity == 0 {
            return Err(DomainError::validation("La cantidad facturada debe ser mayor que cero"));
        }
        if unit_price.is_negative_or_zero() {
            return Err(DomainError::validation("El precio unitario debe ser mayor que cero"));
        }
        Ok(InvoiceLine { description: description.to_owned(), quantity, unit_price })
    }

    /// `unit_price * quantity`, in the currency of the unit price.
    pub fn total(&self) -> (r: Money)
        requires
            self@.total_spec() is Some,
        ensures
            Some(r) == self@.total_spec(),
            self@.product_fits() ==> r.amount.value() == self@.exact_total(),
    {
        Money::new(self.unit_price.amount.checked_mul(self.quantity).unwrap(), self.unit_price.currency)
    }

    /// `total` where the decimal multiplication does not overflow; `None` where it does.
    pub fn checked_total(&self) -> (r: Option<Money>)
        ensures
            r == self@.total_spec(),
            r matches Some(m) ==> m.amount.scale_spec() <= self@.unit_price.amount.scale_spec(),
            self@.product_fits() ==> (r matches Some(m) && m.amount.value() == self@.exact_total()),
    {
        match self.unit_price.amount.checked_mul(self.quantity) {
            Some(a) => Some(Money::new(a, self.unit_price.currency)),
            None => None,
        }
    }

    /// Description of the line.
    pub fn description(&self) -> (r: &str)
        ensures
            r@ == self@.description,
            !is_blank(r@),
    {
        proof {
            use_type_invariant(self);
        }
        self.description.as_str()
    }

    /// Quantity invoiced, above zero.
    pub fn quantity(&self) -> (r: u32)
        ensures
            r == self@.quantity,
            r > 0,
    {
        proof {
            use_type_invariant(self);
        }
        self.quantity
    }

    /// Unit price, above zero.
    pub fn unit_price(&self) -> (r: Money)
        ensures
            r == self@.unit_price,
            r.amount.value() > 0,
    {
        proof {
            use_type_invariant(self);
        }
        self.unit_price
    }
}

/// The views of a sequence of lines.
pub open spec fn lines_view(lines: Seq<InvoiceLine>) -> Seq<LineState> {
    lines.map_values(|l: InvoiceLine| l@)
}

/// Running total while the lines of an invoice are added in order.
#[derive(Debug, Clone, Copy)]
pub enum LineSum {
    /// The sum of the line totals so far.
    Running(Money),
    /// A line total in another currency than the sum.
    Mismatch { expected: Currency, found: Currency },
    /// A line total or the sum overflowed the decimal range.
    Overflow,
}

/// Adds the total of one line to the sum, as `acc.add(line.total())` does.
pub open spec fn sum_step(acc: LineSum, line: LineState) -> LineSum {
    match acc {
        LineSum::Running(m) => match line.total_spec() {
            None => LineSum::Overflow,
            Some(t) => {
                if t.currency != m.currency {
                    LineSum::Mismatch { expected: m.currency, found: t.currency }
                } else {
                    match m.amount.sum_spec(t.amount) {
                        Some(x) => LineSum::Running(Money { amount: x, currency: m.currency }),
                        None => LineSum::Overflow,
                    }
                }
            },
        },
        _ => acc,
    }
}

/// The sum of the line totals of `lines` in order, starting from zero in `currency`.
pub open spec fn line_sum(lines: Seq<LineState>, currency: Currency) -> LineSum
    decreases lines.len(),
{
    if lines.len() == 0 {
        LineSum::Running(Money::zero_spec(currency))
    } else {
        sum_step(line_sum(lines.drop_last(), currency), lines.last())
    }
}

/// The exact sum of `unit_price * quantity` over the lines, in units of 10^-28.
pub open spec fn lines_total(lines: Seq<LineState>) -> int
    decreases lines.len(),
{
    if lines.len() == 0 {
        0
    } else {
        lines_total(lines.drop_last()) + lines.last().exact_total()
    }
}

/// Every line is priced in `currency`.
pub open spec fn lines_in_currency(lines: Seq<LineState>, currency: Currency) -> bool {
    forall|i: int| 0 <= i < lines.len() ==> (#[trigger] lines[i]).unit_price.currency == currency
}

/// The largest scale among the unit prices.
pub open spec fn max_price_scale(lines: Seq<LineState>) -> nat
    decreases lines.len(),
{
    if lines.len() == 0 {
        0
    } else {
        let s = lines.last().unit_price.amount.scale_spec() as nat;
        let m = max_price_scale(lines.drop_last());
        if s > m {
            s
        } else {
            m
        }
    }
}

/// No line total and no running sum needs rounding at scale `s`.
pub open spec fn sums_within(lines: Seq<LineState>, s: nat) -> bool
    decreases lines.len(),
{
    lines.len() == 0 || (sums_within(lines.drop_last(), s) && lines.last().product_fits()
        && within_range(lines_total(lines), s))
}

/// The lines share one currency and decimal arithmetic on them is exact.
pub open spec fn exact_lines(lines: Seq<LineState>) -> bool {
    lines.len() > 0 && lines_in_currency(lines, lines[0].unit_price.currency) && sums_within(
        lines,
        max_price_scale(lines),
    )
}

proof fn lemma_max_price_scale_bounds(lines: Seq<LineState>, i: int)
    requires
        0 <= i < lines.len(),
    ensures
        lines[i].unit_price.amount.scale_spec() <= max_price_scale(lines),
    decreases lines.len(),
{
    if i < lines.len() - 1 {
        lemma_max_price_scale_bounds(lines.drop_last(), i);
    }
}

/// Adds up the line totals in order, starting from zero in `currency`.
fn sum_lines(lines: &Vec<InvoiceLine>, currency: Currency) -> (r: LineSum)
    ensures
        r == line_sum(lines_view(lines@), currency),
        lines_in_currency(lines_view(lines@), currency) && sums_within(
            lines_view(lines@),
            max_price_scale(lines_view(lines@)),
        ) ==> (r matches LineSum::Running(m) && m.currency == currency && m.amount.value()
            == lines_total(lines_view(lines@))),
{
    let ghost all = lines_view(lines@);
    let ghost s = max_price_scale(all);
    let mut acc = LineSum::Running(Money::zero(currency));
    let n = lines.len();
    let mut i: usize = 0;
    assert(all.take(0) =~= Seq::<LineState>::empty());
    while i < n
        invariant
            n == all.len(),
            all == lines_view(lines@),
            s == max_price_scale(all),
            i <= n,
            acc == line_sum(all.take(i as int), currency),
            lines_in_currency(all.take(i as int), currency) && sums_within(all.take(i as int), s)
                ==> (acc matches LineSum::Running(m) && m.currency == currency && m.amount.value()
                == lines_total(all.take(i as int)) && m.amount.scale_spec() <= s),
        decreases n - i,
    {
        let line = &lines[i];
        let ghost prefix = all.take(i as int);
        let ghost next = all.take(i + 1);
        let ghost exact = lines_in_currency(next, currency) && sums_within(next, s);
        proof {
            assert(next.drop_last() =~= prefix);
            assert(next.last() == line@);
            lemma_max_price_scale_bounds(all, i as int);
            if exact {
                assert(lines_in_currency(prefix, currency)) by {
                    assert forall|j: int| 0 <= j < prefix.len() implies (
                    #[trigger] prefix[j]).unit_price.currency == currency by {
                        assert(prefix[j] == next[j]);
                    }
                }
                assert(next[i as int] == line@);
            }
        }
        acc = match acc {
            LineSum::Running(m) => match line.checked_total() {
                None => LineSum::Overflow,
                Some(t) => {
                    if t.currency != m.currency {
                        LineSum::Mismatch { expected: m.currency, found: t.currency }
                    } else {
                        // The scale getters bring in that every scale is at most 28.
                        let _scales = (m.amount.scale(), t.amount.scale(), line.unit_price().amount.scale());
                        proof {
                            if exact {
                                lemma_fits_from_range(
                                    lines_total(next),
                                    s,
                                    m.amount.scale_spec() as int,
                                    t.amount.scale_spec() as int,
                                );
                            }
                        }
                        match m.amount.checked_add(t.amount) {
                            Some(x) => LineSum::Running(Money::new(x, m.currency)),
                            None => LineSum::Overflow,
                        }
                    }
                },
            },
            other => other,
        };
        i = i + 1;
    }
    assert(all.take(n as int) =~= all);
    acc
}

/// Event raised when an invoice is issued.
#[derive(Debug, Clone)]
pub struct InvoiceIssued {
    /// The invoice.
    pub invoice_id: InvoiceId,
    /// Its number.
    pub number: InvoiceNumber,
    /// Its total.
    pub total: Money,
    /// When it was issued.
    pub issued_at: Timestamp,
}

/// What an invoice holds.
pub struct InvoiceState {
    pub id: u128,
    pub number: Seq<char>,
    pub customer_id: u128,
    pub lines: Seq<LineState>,
    pub status: InvoiceStatus,
    pub issued_at: Option<Timestamp>,
    pub events: Seq<InvoiceIssued>,
}

impl InvoiceState {
    /// The sum of the line totals, as `Invoice::total` computes it; an invoice without
    /// lines totals zero dollars.
    pub open spec fn totals(self) -> LineSum {
        if self.lines.len() == 0 {
            LineSum::Running(Money::zero_spec(Currency::Usd))
        } else {
            line_sum(self.lines, self.lines[0].unit_price.currency)
        }
    }

    /// `add_line` would compute a sum that overflows: the check that the new line has the
    /// currency of the first adds their unit prices.
    pub open spec fn add_line_overflows(self, line: LineState) -> bool {
        &&& self.status == InvoiceStatus::Draft
        &&& self.lines.len() > 0
        &&& self.lines[0].unit_price.currency == line.unit_price.currency
        &&& self.lines[0].unit_price.amount.sum_spec(line.unit_price.amount) is None
    }

    /// `issue` would compute a total that overflows.
    pub open spec fn issue_overflows(self) -> bool {
        self.status == InvoiceStatus::Draft && self.lines.len() > 0 && self.totals() is Overflow
    }

    /// Every line is priced in the currency of the first.
    pub open spec fn single_currency(self) -> bool {
        self.lines.len() > 0 ==> lines_in_currency(self.lines, self.lines[0].unit_price.currency)
    }

    /// What adding `line` to `self` answers (`r`) and leaves (`new`): only a draft takes
    /// lines, and only in the currency of its first line; a refused invoice is unchanged.
    pub open spec fn add_line_outcome(self, line: LineState, new: InvoiceState, r: DomainResult<()>) -> bool {
        &&& self.status != InvoiceStatus::Draft ==> r is Err && is_invalid_operation(
            r->Err_0,
            "Solo una factura en borrador puede modificarse"@,
        )
        &&& self.status == InvoiceStatus::Draft ==> (r is Ok <==> (self.lines.len() == 0
            || self.lines[0].unit_price.currency == line.unit_price.currency))
        &&& self.status == InvoiceStatus::Draft && r is Err ==> is_validation(
            r->Err_0,
            mixed_currency_text(),
        )
        &&& r is Err ==> new == self
        &&& r is Ok ==> new == (InvoiceState { lines: self.lines.push(line), ..self })
        &&& self.single_currency() ==> new.single_currency()
    }

    /// What issuing `self` answers (`r`) and leaves (`new`): only a draft with lines is
    /// issued; the total of its lines goes into the one event it raises; a refused invoice is
    /// unchanged.
    pub open spec fn issue_outcome(self, new: InvoiceState, r: DomainResult<()>) -> bool {
        &&& self.status != InvoiceStatus::Draft ==> r is Err && is_invalid_operation(
            r->Err_0,
            "Solo una factura en borrador puede emitirse"@,
        )
        &&& self.status == InvoiceStatus::Draft && self.lines.len() == 0 ==> r is Err
            && is_validation(r->Err_0, no_lines_text())
        &&& self.status == InvoiceStatus::Draft && self.lines.len() > 0 ==> (r is Ok
            <==> self.totals() is Running)
        &&& self.status == InvoiceStatus::Draft && self.lines.len() > 0 && r is Err
            ==> mismatch_verdict(self.totals(), r->Err_0)
        &&& r is Err ==> new == self
        &&& r is Ok ==> (self.totals() matches LineSum::Running(total)
            && new.status == InvoiceStatus::Issued && new.issued_at is Some && new.id == self.id
            && new.number == self.number && new.customer_id == self.customer_id && new.lines
            == self.lines && new.events.len() == self.events.len() + 1 && new.events.drop_last()
            =~= self.events && new.events.last().invoice_id.bits() == self.id
            && new.events.last().number@ == self.number && new.events.last().total == total
            && Some(new.events.last().issued_at) == new.issued_at)
        &&& exact_lines(self.lines) && self.status == InvoiceStatus::Draft ==> r is Ok
        &&& exact_lines(self.lines) && r is Ok ==> new.events.last().total.amount.value()
            == lines_total(self.lines)
        &&& r is Ok ==> status_step(self.status, new.status)
    }
}

/// The text of the error for a line in another currency than the first.
pub open spec fn mixed_currency_text() -> Seq<char> {
    "Todas las líneas de una factura deben usar la misma moneda"@
}

/// The text of the error for issuing an invoice without lines.
pub open spec fn no_lines_text() -> Seq<char> {
    "No se puede emitir una factura sin líneas"@
}

/// What `Invoice::total` answers for the sum `t`.
pub open spec fn total_verdict(t: LineSum, r: DomainResult<Money>) -> bool {
    match t {
        LineSum::Running(m) => r == Ok::<Money, DomainError>(m),
        LineSum::Mismatch { expected, found } => r is Err && Money::is_mismatch_of(
            r->Err_0,
            expected,
            found,
        ),
        LineSum::Overflow => true,
    }
}

/// The error of a sum that stopped at a line in another currency.
pub open spec fn mismatch_verdict(t: LineSum, e: DomainError) -> bool {
    match t {
        LineSum::Mismatch { expected, found } => Money::is_mismatch_of(e, expected, found),
        _ => true,
    }
}

/// An invoice: the aggregate that goes from draft to issued, paid or canceled.
#[derive(Debug, Clone)]
pub struct Invoice {
    id: InvoiceId,
    number: InvoiceNumber,
    customer_id: CustomerId,
    lines: Vec<InvoiceLine>,
    status: InvoiceStatus,
    issued_at: Option<Timestamp>,
    events: Vec<InvoiceIssued>,
}

impl View for Invoice {
    type V = InvoiceState;

    closed spec fn view(&self) -> InvoiceState {
        InvoiceState {
            id: self.id.bits(),
            number: self.number@,
            customer_id: self.customer_id.bits(),
            lines: lines_view(self.lines@),
            status: self.status,
            issued_at: self.issued_at,
            events: self.events@,
        }
    }
}

impl Invoice {
    /// A draft invoice without lines.
    pub fn draft(number: InvoiceNumber, customer_id: CustomerId) -> (r: Invoice)
        ensures
            r@.number == number@,
            r@.customer_id == customer_id.bits(),
            r@.lines.len() == 0,
            r@.status == InvoiceStatus::Draft,
            r@.issued_at is None,
            r@.events.len() == 0,
    {
        Invoice {
            id: EntityId::new(),
            number,
            customer_id,
            lines: Vec::new(),
            status: InvoiceStatus::Draft,
            issued_at: None,
            events: Vec::new(),
        }
    }

    /// Rebuilds an invoice from stored values; it has no pending events.
    pub fn rehydrate(
        id: InvoiceId,
        number: InvoiceNumber,
        customer_id: CustomerId,
        lines: Vec<InvoiceLine>,
        status: InvoiceStatus,
        issued_at: Option<Timestamp>,
    ) -> (r: Invoice)
        ensures
            r@ == (InvoiceState {
                id: id.bits(),
                number: number@,
                customer_id: customer_id.bits(),
                lines: lines_view(lines@),
                status,
                issued_at,
                events: Seq::empty(),
            }),
    {
        Invoice { id, number, customer_id, lines, status, issued_at, events: Vec::new() }
    }

    /// Adds a line to a draft. Refused when the invoice is not a draft, and when the line is
    /// in another currency than the first line; a refused invoice is left unchanged.
    pub fn add_line(&mut self, line: InvoiceLine) -> (r: DomainResult<()>)
        requires
            !old(self)@.add_line_overflows(line@),
        ensures
            old(self)@.add_line_outcome(line@, final(self)@, r),
    {
        if self.status != InvoiceStatus::Draft {
            return Err(
                DomainError::invalid_operation("Solo una factura en borrador puede modificarse"),
            );
        }
        if self.lines.len() > 0 {
            let first_price = self.lines[0].unit_price();
            if first_price.add(line.unit_price()).is_err() {
                return Err(
                    DomainError::validation(
                        "Todas las líneas de una factura deben usar la misma moneda",
                    ),
                );
            }
        }
        let ghost old_lines = lines_view(self.lines@);
        self.lines.push(line);
        proof {
            let new_lines = lines_view(self.lines@);
            assert(new_lines =~= old_lines.push(line@));
            if old_lines.len() > 0 && lines_in_currency(old_lines, old_lines[0].unit_price.currency) {
                let c = old_lines[0].unit_price.currency;
                assert forall|i: int| 0 <= i < new_lines.len() implies (
                #[trigger] new_lines[i]).unit_price.currency == c by {
                    if i < old_lines.len() {
                        assert(new_lines[i] == old_lines[i]);
                    }
                }
            }
            if old_lines.len() == 0 {
                assert(new_lines.len() == 1);
                assert forall|i: int| 0 <= i < new_lines.len() implies (
                #[trigger] new_lines[i]).unit_price.currency == new_lines[0].unit_price.currency by {
                    assert(i == 0);
                }
            }
        }
        Ok(())
    }

    /// `add_line` where its check of the currency does not overflow; `None`, and the invoice
    /// unchanged, where it does.
    pub fn checked_add_line(&mut self, line: InvoiceLine) -> (r: Option<DomainResult<()>>)
        ensures
            r is None <==> old(self)@.add_line_overflows(line@),
            r is None ==> final(self)@ == old(self)@,
            r matches Some(res) ==> old(self)@.add_line_outcome(line@, final(self)@, res),
    {
        if self.status == InvoiceStatus::Draft && self.lines.len() > 0 {
            let first_price = self.lines[0].unit_price();
            let price = line.unit_price();
            if first_price.currency == price.currency && first_price.amount.checked_add(
                price.amount,
            ).is_none() {
                return None;
            }
        }
        Some(self.add_line(line))
    }

    /// Issues a draft: fixes the issue time and raises the event with the total. Refused
    /// when the invoice is not a draft, when it has no lines, and when its lines mix
    /// currencies; a refused invoice is left unchanged.
    pub fn issue(&mut self) -> (r: DomainResult<()>)
        requires
            !old(self)@.issue_overflows(),
        ensures
            old(self)@.issue_outcome(final(self)@, r),
    {
        if self.status != InvoiceStatus::Draft {
            return Err(
                DomainError::invalid_operation("Solo una factura en borrador puede emitirse"),
            );
        }
        if self.lines.len() == 0 {
            return Err(DomainError::validation("No se puede emitir una factura sin líneas"));
        }
        let issued_at = Timestamp::now();
        let total = self.total()?;
        self.status = InvoiceStatus::Issued;
        self.issued_at = Some(issued_at);
        self.events.push(
            InvoiceIssued {
                invoice_id: self.id,
                number: self.number.clone(),
                total,
                issued_at,
            },
        );
        Ok(())
    }

    /// `issue` where its total does not overflow; `None`, and the invoice unchanged, where it
    /// does.
    pub fn checked_issue(&mut self) -> (r: Option<DomainResult<()>>)
        ensures
            r is None <==> old(self)@.issue_overflows(),
            r is None ==> final(self)@ == old(self)@,
            exact_lines(old(self)@.lines) ==> r is Some,
            r matches Some(res) ==> old(self)@.issue_outcome(final(self)@, res),
    {
        if self.status == InvoiceStatus::Draft && self.lines.len() > 0 {
            if let LineSum::Overflow = self.line_totals() {
                return None;
            }
        }
        Some(self.issue())
    }

    /// Marks an issued invoice as paid; any other status is refused and left unchanged.
    pub fn mark_paid(&mut self) -> (r: DomainResult<()>)
        ensures
            r is Ok <==> old(self)@.status == InvoiceStatus::Issued,
            r is Err ==> is_invalid_operation(
                r->Err_0,
                "Solo una factura emitida puede marcarse como pagada"@,
            ) && final(self)@ == old(self)@,
            r is Ok ==> final(self)@ == (InvoiceState { status: InvoiceStatus::Paid, ..old(self)@ }),
            r is Ok ==> status_step(old(self)@.status, final(self)@.status),
    {
        if self.status != InvoiceStatus::Issued {
            return Err(
                DomainError::invalid_operation(
                    "Solo una factura emitida puede marcarse como pagada",
                ),
            );
        }
        self.status = InvoiceStatus::Paid;
        Ok(())
    }

    /// Cancels the invoice; a paid or an already canceled invoice is refused and left
    /// unchanged.
    pub fn cancel(&mut self) -> (r: DomainResult<()>)
        ensures
            r is Ok <==> old(self)@.status == InvoiceStatus::Draft || old(self)@.status
                == InvoiceStatus::Issued,
            old(self)@.status == InvoiceStatus::Paid ==> r is Err && is_invalid_operation(
                r->Err_0,
                "No se puede cancelar una factura pagada"@,
            ),
            old(self)@.status == InvoiceStatus::Canceled ==> r is Err && is_invalid_operation(
                r->Err_0,
                "La factura ya está cancelada"@,
            ),
            r is Err ==> final(self)@ == old(self)@,
            r is Ok ==> final(self)@ == (InvoiceState {
                status: InvoiceStatus::Canceled,
                ..old(self)@
            }),
            r is Ok ==> status_step(old(self)@.status, final(self)@.status),
    {
        if self.status == InvoiceStatus::Paid {
            return Err(DomainError::invalid_operation("No se puede cancelar una factura pagada"));
        }
        if self.status == InvoiceStatus::Canceled {
            return Err(DomainError::invalid_operation("La factura ya está cancelada"));
        }
        self.status = InvoiceStatus::Canceled;
        Ok(())
    }

    fn line_totals(&self) -> (r: LineSum)
        ensures
            r == self@.totals(),
            exact_lines(self@.lines) ==> (r matches LineSum::Running(m) && m.amount.value()
                == lines_total(self@.lines)),
    {
        if self.lines.len() == 0 {
            return LineSum::Running(Money::zero(Currency::Usd));
        }
        let currency = self.lines[0].unit_price().currency;
        sum_lines(&self.lines, currency)
    }

    /// Sum of the line totals, in the currency of the first line; zero dollars without
    /// lines. Lines in different currencies are a currency mismatch.
    pub fn total(&self) -> (r: DomainResult<Money>)
        requires
            !(self@.totals() is Overflow),
        ensures
            total_verdict(self@.totals(), r),
            exact_lines(self@.lines) ==> (r matches Ok(m) && m.amount.value() == lines_total(
                self@.lines,
            )),
            self@.lines.len() == 0 ==> (r matches Ok(m) && m.currency == Currency::Usd
                && m.amount.value() == 0),
    {
        proof {
            Amount::lemma_zero_spec();
        }
        match self.line_totals() {
            LineSum::Running(m) => Ok(m),
            LineSum::Mismatch { expected, found } => Err(
                DomainError::CurrencyMismatch {
                    left: expected.code().to_owned(),
                    right: found.code().to_owned(),
                },
            ),
            LineSum::Overflow => unreached(),
        }
    }

    /// `total` where the sum does not overflow; `None` where it does.
    pub fn checked_total(&self) -> (r: Option<DomainResult<Money>>)
        ensures
            r is None <==> self@.totals() is Overflow,
            r matches Some(res) ==> total_verdict(self@.totals(), res),
    {
        if let LineSum::Overflow = self.line_totals() {
            return None;
        }
        Some(self.total())
    }

    /// Hands out the pending events and clears them.
    pub fn drain_events(&mut self) -> (r: Vec<InvoiceIssued>)
        ensures
            r@ == old(self)@.events,
            final(self)@ == (InvoiceState { events: Seq::empty(), ..old(self)@ }),
    {
        let mut drained = Vec::new();
        core::mem::swap(&mut drained, &mut self.events);
        drained
    }

    /// Identifier of the invoice.
    pub fn id(&self) -> (r: InvoiceId)
        ensures
            r.bits() == self@.id,
    {
        self.id
    }

    /// Number of the invoice.
    pub fn number(&self) -> (r: &InvoiceNumber)
        ensures
            r@ == self@.number,
    {
        &self.number
    }

    /// The invoiced customer.
    pub fn customer_id(&self) -> (r: CustomerId)
        ensures
            r.bits() == self@.customer_id,
    {
        self.customer_id
    }

    /// Lines of the invoice.
    pub fn lines(&self) -> (r: &[InvoiceLine])
        ensures
            lines_view(r@) == self@.lines,
    {
        self.lines.as_slice()
    }

    /// Current status.
    pub fn status(&self) -> (r: InvoiceStatus)
        ensures
            r == self@.status,
    {
        self.status
    }

    /// When the invoice was issued.
    pub fn issued_at(&self) -> (r: Option<&Timestamp>)
        ensures
            r is Some <==> self@.issued_at is Some,
            r matches Some(t) ==> Some(*t) == self@.issued_at,
    {
        match &self.issued_at {
            Some(t) => Some(t),
            None => None,
        }
    }
}

} // verus!
