use vstd::prelude::*;

use crate::accounting::journal_entry::EntryPosted;
use crate::inventory::product::StockChanged;
use crate::invoicing::invoice::InvoiceIssued;
use crate::shared::errors::DomainResult;

verus! {

/// Lowercase hexadecimal digit of `d` (0 to 15).
pub open spec fn hex_digit(d: u128) -> char {
    if d < 10 {
        (48 + d) as char
    } else {
        (87 + d) as char
    }
}

/// The `k`-th hexadecimal digit of `bits`, from the most significant (0) to the least (31).
pub open spec fn nibble(bits: u128, k: int) -> u128 {
    (bits >> ((124 - 4 * k) as u128)) & 0xfu128
}

/// Character `i` of the hyphenated form `xxxxxxxx-xxxx-xxxx-xxxx-xxxxxxxxxxxx`.
pub open spec fn uuid_text_char(bits: u128, i: int) -> char {
    if i == 8 || i == 13 || i == 18 || i == 23 {
        '-'
    } else {
        let k = if i < 8 {
            i
        } else if i < 13 {
            i - 1
        } else if i < 18 {
            i - 2
        } else if i < 23 {
            i - 3
        } else {
            i - 4
        };
        hex_digit(nibble(bits, k))
    }
}

/// The hyphenated lowercase text of a UUID.
pub open spec fn uuid_text(bits: u128) -> Seq<char> {
    Seq::new(36, |i: int| uuid_text_char(bits, i))
}

/// Formats a UUID with `uuid::Uuid`'s `Display`, which writes the hyphenated lowercase
/// form (`as_hyphenated`, `encode_lower`). Claims exactly that text.
#[verifier::external_body]
fn format_uuid(bits: u128) -> (r: String)
    ensures
        r@ == uuid_text(bits),
{
    uuid::Uuid::from_u128(bits).to_string()
}

/// Publisher that keeps the published events as text, in order.
#[derive(Debug, Clone, Default)]
pub struct InMemoryEventPublisher {
    published: Vec<String>,
}

impl View for InMemoryEventPublisher {
    type V = Seq<Seq<char>>;

    closed spec fn view(&self) -> Seq<Seq<char>> {
        self.published@.map_values(|s: String| s@)
    }
}

impl InMemoryEventPublisher {
    /// A publisher that has published nothing.
    pub fn new() -> (r: InMemoryEventPublisher)
        ensures
            r@ == Seq::<Seq<char>>::empty(),
    {
        let r = InMemoryEventPublisher { published: Vec::new() };
        assert(r@ =~= Seq::<Seq<char>>::empty());
        r
    }

    /// Publishes that a journal entry was posted, as `entry-posted:<entry id>`.
    pub fn publish_entry_posted(&mut self, event: &EntryPosted) -> (r: DomainResult<()>)
        ensures
            r is Ok,
            final(self)@ == old(self)@.push("entry-posted:"@ + uuid_text(event.entry_id.bits())),
    {
        let mut text = "entry-posted:".to_owned();
        text.append(format_uuid(event.entry_id.value()).as_str());
        self.push(text)
    }

    /// Publishes that the stock of a product changed, as `stock-changed:<product id>`.
    pub fn publish_stock_changed(&mut self, event: &StockChanged) -> (r: DomainResult<()>)
        ensures
            r is Ok,
            final(self)@ == old(self)@.push(
                "stock-changed:"@ + uuid_text(event.product_id.bits()),
            ),
    {
        let mut text = "stock-changed:".to_owned();
        text.append(format_uuid(event.product_id.value()).as_str());
        self.push(text)
    }

    /// Publishes that an invoice was issued, as `invoice-issued:<invoice id>`.
    pub fn publish_invoice_issued(&mut self, event: &InvoiceIssued) -> (r: DomainResult<()>)
        ensures
            r is Ok,
            final(self)@ == old(self)@.push(
                "invoice-issued:"@ + uuid_text(event.invoice_id.bits()),
            ),
    {
        let mut text = "invoice-issued:".to_owned();
        text.append(format_uuid(event.invoice_id.value()).as_str());
        self.push(text)
    }

    /// Everything published so far, oldest first.
    pub fn published(&self) -> (r: DomainResult<Vec<String>>)
        ensures
            r matches Ok(v) && v@.map_values(|s: String| s@) == self@,
    {
        let mut copy: Vec<String> = Vec::new();
        let n = self.published.len();
        let mut i: usize = 0;
        while i < n
            invariant
                n == self.published@.len(),
                i <= n,
                copy@.len() == i,
                forall|j: int| 0 <= j < i ==> copy@[j]@ == self.published@[j]@,
            decreases n - i,
        {
            copy.push(self.published[i].clone());
            i = i + 1;
        }
        assert(copy@.map_values(|s: String| s@) =~= self@);
        Ok(copy)
    }

    /// Records one published event.
    fn push(&mut self, value: String) -> (r: DomainResult<()>)
        ensures
            r is Ok,
            final(self)@ == old(self)@.push(value@),
    {
        self.published.push(value);
        assert(self@ =~= old(self)@.push(value@));
        Ok(())
    }
}

} // verus!
