# rust_erp

A small modular ERP (accounting, inventory, invoicing) whose domain rules are
written in Verus and proved against their contracts.

## Layout

- `src/` — the verified library.
  - `shared/`: text rules, UUID identifiers, currencies, decimal amounts
    (`rust_decimal` behind trusted wrappers), money, timestamps, domain errors.
  - `accounting/`: account codes, accounts, postings, the double-entry rule and
    journal entries.
  - `inventory/`: SKUs, quantities and products with their stock adjustments.
  - `invoicing/`: tax identifiers, invoice numbers, customers and invoices with
    their lifecycle (draft, issued, paid, canceled).
  - `application/`: what each use case decides between loading and saving.
  - `records.rs`: the checks applied to rows read from the database.
  - `presentation.rs`: page views and the reading of submitted forms.
  - `infrastructure/`: the in-memory event publisher.
- `tests/` — tests of the library, run with the real outside crates.
- `app/` — the Axum server: configuration, PostgreSQL repositories (SQLx),
  MiniJinja templates and HTTP handlers. It performs I/O and hands plain values
  to the library, which takes every decision.

## Main guarantees

- Posting a journal entry succeeds exactly when its debits and credits, in one
  currency, add up to the same amount (wherever no running total has to be
  rounded); a refused entry is left unchanged.
- The balance of an account is the exact sum of its debits minus its credits,
  under the same condition.
- Stock never goes negative; an accepted adjustment can always be undone.
- Invoices only move draft → issued → paid, or to canceled from draft or
  issued; paid and canceled invoices are final. The event of an issued invoice
  carries the exact sum of its line totals, wherever no total is rounded.
- The double-entry verdict does not depend on the order of the postings: mixed
  currencies are refused in any order, and single-currency postings are
  accepted or refused alike wherever no running total is rounded.
- Every refused operation leaves its aggregate unchanged.
