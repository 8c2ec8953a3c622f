use rust_erp::accounting::{EntryPosted, JournalEntry, PostingSide};
use rust_erp::application::accounting::{
    account_balance, post_journal_entry, GetAccountBalanceQuery, PostJournalEntryCommand,
    PostJournalEntryLine,
};
use rust_erp::application::inventory::{adjust_stock, AdjustStockCommand};
use rust_erp::application::invoicing::{issue_invoice, IssueInvoiceCommand, IssueInvoiceLineCommand};
use rust_erp::infrastructure::InMemoryEventPublisher;
use rust_erp::inventory::{Product, Sku};
use rust_erp::invoicing::{InvoiceNumber, InvoiceStatus};
use rust_erp::shared::{
    AccountId, Amount, Currency, CustomerId, DomainError, JournalEntryId, Money, ProductId,
    Timestamp,
};

fn usd(cents: i64) -> Money {
    Money::new(Amount::new(cents, 2), Currency::Usd)
}

fn posted(description: &str, debit: AccountId, credit: AccountId, amount: Money) -> JournalEntry {
    let command = PostJournalEntryCommand::transfer(description.to_string(), debit, credit, amount);
    post_journal_entry(command).expect("sin desbordamiento").expect("asiento publicado")
}

#[test]
fn transfer_posts_a_balanced_entry() {
    let cash = AccountId::new();
    let sales = AccountId::new();
    let mut entry = posted("Venta", cash, sales, usd(12000));
    assert!(entry.is_posted());
    assert_eq!(entry.description(), "Venta");
    let postings = entry.postings();
    assert_eq!(postings.len(), 2);
    assert_eq!(postings[0].side(), PostingSide::Debit);
    assert_eq!(postings[0].account_id(), cash);
    assert_eq!(postings[1].side(), PostingSide::Credit);
    assert_eq!(postings[1].account_id(), sales);
    assert_eq!(entry.drain_events().len(), 1);
}

#[test]
fn post_journal_entry_refuses_bad_commands() {
    let blank = PostJournalEntryCommand::transfer(" ".to_string(), AccountId::new(), AccountId::new(), usd(1));
    assert!(matches!(post_journal_entry(blank), Some(Err(DomainError::Validation(_)))));
    let zero = PostJournalEntryCommand::transfer("Cero".to_string(), AccountId::new(), AccountId::new(), usd(0));
    assert!(matches!(post_journal_entry(zero), Some(Err(DomainError::Validation(_)))));
    let single = PostJournalEntryCommand {
        description: "Sola".to_string(),
        lines: vec![PostJournalEntryLine { account_id: AccountId::new(), side: PostingSide::Debit, amount: usd(1) }],
    };
    assert!(matches!(post_journal_entry(single), Some(Err(DomainError::Validation(_)))));
    let unbalanced = PostJournalEntryCommand {
        description: "Descuadre".to_string(),
        lines: vec![
            PostJournalEntryLine { account_id: AccountId::new(), side: PostingSide::Debit, amount: usd(100) },
            PostJournalEntryLine { account_id: AccountId::new(), side: PostingSide::Credit, amount: usd(99) },
        ],
    };
    assert!(matches!(post_journal_entry(unbalanced), Some(Err(DomainError::Validation(_)))));
}

#[test]
fn account_balance_is_debits_minus_credits() {
    let cash = AccountId::new();
    let sales = AccountId::new();
    let rent = AccountId::new();
    let entries = vec![
        posted("Venta", cash, sales, usd(10000)),
        posted("Renta", rent, cash, usd(2500)),
        posted("Venta", cash, sales, usd(150)),
    ];
    let query = GetAccountBalanceQuery { account_id: cash, currency: Currency::Usd };
    assert_eq!(account_balance(&entries, query), Some(Ok(usd(7650))));
    let query = GetAccountBalanceQuery { account_id: sales, currency: Currency::Usd };
    assert_eq!(account_balance(&entries, query), Some(Ok(usd(-10150))));
    let untouched = GetAccountBalanceQuery { account_id: AccountId::new(), currency: Currency::Eur };
    assert_eq!(account_balance(&entries, untouched), Some(Ok(Money::zero(Currency::Eur))));
    assert_eq!(account_balance(&[], query), Some(Ok(Money::zero(Currency::Usd))));
}

#[test]
fn account_balance_reports_a_foreign_currency() {
    let cash = AccountId::new();
    let entries = vec![posted("Venta", cash, AccountId::new(), usd(100))];
    let query = GetAccountBalanceQuery { account_id: cash, currency: Currency::Mxn };
    assert_eq!(
        account_balance(&entries, query),
        Some(Err(DomainError::CurrencyMismatch { left: "MXN".to_string(), right: "USD".to_string() }))
    );
}

#[test]
fn adjust_stock_use_case() {
    let command = AdjustStockCommand { product_id: ProductId::new(), delta: 4 };
    assert!(matches!(adjust_stock(None, command), Err(DomainError::NotFound(_))));
    let product = Product::new(Sku::new("ERP-020").expect("sku"), "Silla").expect("producto");
    let command = AdjustStockCommand { product_id: product.id(), delta: 4 };
    let mut adjusted = adjust_stock(Some(product.clone()), command).expect("ajuste");
    assert_eq!(adjusted.stock().value(), 4);
    assert_eq!(adjusted.drain_events().len(), 1);
    let command = AdjustStockCommand { product_id: product.id(), delta: -1 };
    assert!(matches!(adjust_stock(Some(product), command), Err(DomainError::Validation(_))));
}

fn invoice_command(number: &str, lines: Vec<IssueInvoiceLineCommand>) -> IssueInvoiceCommand {
    IssueInvoiceCommand {
        number: InvoiceNumber::new(number).expect("número"),
        customer_id: CustomerId::new(),
        lines,
    }
}

fn command_line(description: &str, quantity: u32, unit_price: Money) -> IssueInvoiceLineCommand {
    IssueInvoiceLineCommand { description: description.to_string(), quantity, unit_price }
}

#[test]
fn issue_invoice_use_case() {
    let command = invoice_command(
        "F-200",
        vec![command_line("Licencia", 2, usd(9900)), command_line("Soporte", 1, usd(100))],
    );
    let customer = command.customer_id;
    let mut invoice = issue_invoice(command).expect("sin desbordamiento").expect("emitida");
    assert_eq!(invoice.status(), InvoiceStatus::Issued);
    assert_eq!(invoice.customer_id(), customer);
    assert_eq!(invoice.lines().len(), 2);
    assert_eq!(invoice.total(), Ok(usd(19900)));
    let events = invoice.drain_events();
    assert_eq!(events.len(), 1);
    assert_eq!(events[0].total, usd(19900));
}

#[test]
fn issue_invoice_refuses_bad_lines() {
    let empty = invoice_command("F-201", vec![]);
    assert!(matches!(issue_invoice(empty), Some(Err(DomainError::Validation(_)))));
    let zero = invoice_command("F-202", vec![command_line("Licencia", 0, usd(100))]);
    assert!(matches!(issue_invoice(zero), Some(Err(DomainError::Validation(_)))));
    let mixed = invoice_command(
        "F-203",
        vec![
            command_line("Licencia", 1, usd(100)),
            command_line("Licencia", 1, Money::new(Amount::new(100, 2), Currency::Eur)),
        ],
    );
    assert!(matches!(issue_invoice(mixed), Some(Err(DomainError::Validation(_)))));
}

#[test]
fn publisher_keeps_events_in_order() {
    let mut publisher = InMemoryEventPublisher::new();
    assert_eq!(publisher.published(), Ok(vec![]));
    let entry = EntryPosted {
        entry_id: JournalEntryId::from_u128(0x67e5_5044_10b1_426f_9247_bb68_0e5f_e0c8),
        posted_at: Timestamp::from_parts(0, 0),
        total_debit: usd(100),
    };
    publisher.publish_entry_posted(&entry).expect("publicar");
    let later = EntryPosted {
        entry_id: JournalEntryId::from_u128(0xa1a2_a3a4_b1b2_c1c2_d1d2_d3d4_d5d6_d7d8),
        ..entry
    };
    publisher.publish_entry_posted(&later).expect("publicar");
    assert_eq!(
        publisher.published(),
        Ok(vec![
            "entry-posted:67e55044-10b1-426f-9247-bb680e5fe0c8".to_string(),
            "entry-posted:a1a2a3a4-b1b2-c1c2-d1d2-d3d4d5d6d7d8".to_string(),
        ])
    );
}

#[test]
fn publisher_names_each_kind_of_event() {
    let mut product = Product::new(Sku::new("ERP-030").expect("sku"), "Mesa").expect("producto");
    product.adjust_stock(1).expect("ajuste");
    let changed = product.drain_events().remove(0);
    let mut invoice_events = issue_invoice(invoice_command("F-300", vec![command_line("Mesa", 1, usd(100))]))
        .expect("sin desbordamiento")
        .expect("emitida")
        .drain_events();
    let issued = invoice_events.remove(0);
    let mut publisher = InMemoryEventPublisher::new();
    publisher.publish_stock_changed(&changed).expect("publicar");
    publisher.publish_invoice_issued(&issued).expect("publicar");
    let published = publisher.published().expect("lista");
    assert_eq!(published.len(), 2);
    assert!(published[0].starts_with("stock-changed:"));
    assert_eq!(published[0].len(), "stock-changed:".len() + 36);
    assert!(published[1].starts_with("invoice-issued:"));
    assert_eq!(published[1].len(), "invoice-issued:".len() + 36);
}

#[test]
fn issue_invoice_reports_the_error_of_the_failing_step() {
    let blank = invoice_command("F-210", vec![command_line(" ", 1, usd(100))]);
    assert_eq!(
        issue_invoice(blank).map(|r| r.err()),
        Some(Some(DomainError::Validation("La descripción de la línea no puede estar vacía".to_string())))
    );
    let free = invoice_command("F-211", vec![command_line("Regalo", 1, usd(0))]);
    assert_eq!(
        issue_invoice(free).map(|r| r.err()),
        Some(Some(DomainError::Validation("El precio unitario debe ser mayor que cero".to_string())))
    );
    let mixed = invoice_command(
        "F-212",
        vec![
            command_line("Licencia", 1, usd(100)),
            command_line("Licencia", 1, Money::new(Amount::new(100, 2), Currency::Mxn)),
        ],
    );
    assert_eq!(
        issue_invoice(mixed).map(|r| r.err()),
        Some(Some(DomainError::Validation(
            "Todas las líneas de una factura deben usar la misma moneda".to_string()
        )))
    );
    let empty = invoice_command("F-213", vec![]);
    assert_eq!(
        issue_invoice(empty).map(|r| r.err()),
        Some(Some(DomainError::Validation("No se puede emitir una factura sin líneas".to_string())))
    );
}
