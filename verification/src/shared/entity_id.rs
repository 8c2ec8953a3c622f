use vstd::prelude::*;

use core::marker::PhantomData;
use vstd::std_specs::cmp::PartialEqSpecImpl;

verus! {

/// Identifier of an entity of kind `T`, holding the 128 bits of a UUID.
#[derive(Debug)]
pub struct EntityId<T> {
    value: u128,
    kind: PhantomData<T>,
}

impl<T> Clone for EntityId<T> {
    fn clone(&self) -> (r: Self)
        ensures
            r == *self,
    {
        EntityId { value: self.value, kind: PhantomData }
    }
}

impl<T> Copy for EntityId<T> {
}

/// Draws a random version-4 UUID from the operating system (`uuid::Uuid::new_v4`)
/// and returns its 128 bits. The crate masks in the version nibble `4` and the
/// RFC 4122 variant bits `10`; nothing else is known of the value.
#[verifier::external_body]
fn new_v4_bits() -> (r: u128)
    ensures
        (r >> 76u128) & 0xfu128 == 4,
        (r >> 62u128) & 0x3u128 == 2,
{
    uuid::Uuid::new_v4().as_u128()
}

/// The name of what `str::parse::<uuid::Uuid>` gives for `text`: the 128 bits of the UUID,
/// or the text of the parse error.
pub uninterp spec fn uuid_parsed(text: Seq<char>) -> Result<u128, Seq<char>>;

/// Parses a UUID with `str::parse::<uuid::Uuid>` (any of the formats the crate reads).
/// Claims: the result is the named one, with the bits of the UUID or the text of the error.
#[verifier::external_body]
fn parse_uuid_bits(text: &str) -> (r: Result<u128, String>)
    ensures
        r matches Ok(v) ==> uuid_parsed(text@) is Ok && uuid_parsed(text@)->Ok_0 == v,
        r matches Err(e) ==> uuid_parsed(text@) is Err && uuid_parsed(text@)->Err_0 == e@,
{
    match text.parse::<uuid::Uuid>() {
        Ok(u) => Ok(u.as_u128()),
        Err(e) => Err(e.to_string()),
    }
}

impl<T> EntityId<T> {
    /// Parses the text of a UUID; the error is the text of the parse error.
    pub fn parse(text: &str) -> (r: Result<Self, String>)
        ensures
            r matches Ok(id) ==> uuid_parsed(text@) is Ok && uuid_parsed(text@)->Ok_0 == id.bits(),
            r matches Err(e) ==> uuid_parsed(text@) is Err && uuid_parsed(text@)->Err_0 == e@,
    {
        match parse_uuid_bits(text) {
            Ok(v) => Ok(EntityId::from_u128(v)),
            Err(e) => Err(e),
        }
    }

    /// The 128 bits of the identifier.
    pub closed spec fn bits(&self) -> u128 {
        self.value
    }

    /// A fresh random identifier (UUID version 4).
    pub fn new() -> (r: Self)
        ensures
            (r.bits() >> 76u128) & 0xfu128 == 4,
            (r.bits() >> 62u128) & 0x3u128 == 2,
    {
        EntityId { value: new_v4_bits(), kind: PhantomData }
    }

    /// Rebuilds an identifier from the 128 bits of a UUID.
    pub fn from_u128(value: u128) -> (r: Self)
        ensures
            r.bits() == value,
    {
        EntityId { value, kind: PhantomData }
    }

    /// The 128 bits of the identifier.
    pub fn value(&self) -> (r: u128)
        ensures
            r == self.bits(),
    {
        self.value
    }

    /// Whether two identifiers are the same UUID.
    pub fn same_as(&self, other: &Self) -> (r: bool)
        ensures
            r == (self.bits() == other.bits()),
    {
        self.value == other.value
    }
}

impl<T> PartialEq for EntityId<T> {
    fn eq(&self, other: &Self) -> (r: bool) {
        self.value == other.value
    }
}

impl<T> Eq for EntityId<T> {
}

impl<T> PartialEqSpecImpl for EntityId<T> {
    open spec fn obeys_eq_spec() -> bool {
        true
    }

    open spec fn eq_spec(&self, other: &Self) -> bool {
        self.bits() == other.bits()
    }
}

/// Kind of the identifiers of ledger accounts.
#[derive(Debug)]
pub struct AccountKind;

/// Kind of the identifiers of journal entries.
#[derive(Debug)]
pub struct JournalEntryKind;

/// Kind of the identifiers of products.
#[derive(Debug)]
pub struct ProductKind;

/// Kind of the identifiers of customers.
#[derive(Debug)]
pub struct CustomerKind;

/// Kind of the identifiers of invoices.
#[derive(Debug)]
pub struct InvoiceKind;

/// Identifier of a ledger account.
pub type AccountId = EntityId<AccountKind>;

/// Identifier of a journal entry.
pub type JournalEntryId = EntityId<JournalEntryKind>;

/// Identifier of a product.
pub type ProductId = EntityId<ProductKind>;

/// Identifier of a customer.
pub type CustomerId = EntityId<CustomerKind>;

/// Identifier of an invoice.
pub type InvoiceId = EntityId<InvoiceKind>;

} // verus!
