use open_donate::db::{PaymentMethod, TransactionStatus};
use open_donate::payments::{
    auto_confirm_delay_ms, mock_payment_init, normalize_donor_name, normalize_message,
    payment_panel, MockPaymentStore, PaymentPanel,
};

#[test]
fn store_lifecycle_accept() {
    let mut store = MockPaymentStore::new();
    assert_eq!(store.status(7).status, TransactionStatus::Initialize);
    store.open(7);
    let s = store.status(7);
    assert_eq!(s.tx_id, 7);
    assert_eq!(s.status, TransactionStatus::Initialize);
    store.accept(7);
    assert_eq!(store.status(7).status, TransactionStatus::ReadyForDisplay);
}

#[test]
fn store_lifecycle_reject_last_wins() {
    let mut store = MockPaymentStore::new();
    store.open(1);
    store.open(2);
    store.accept(1);
    store.reject(1);
    assert_eq!(store.status(1).status, TransactionStatus::Rejected);
    assert_eq!(store.status(2).status, TransactionStatus::Initialize);
    store.reject(2);
    store.accept(2);
    assert_eq!(store.status(2).status, TransactionStatus::ReadyForDisplay);
}

#[test]
fn store_ignores_unknown_payments() {
    let mut store = MockPaymentStore::new();
    store.accept(42);
    store.reject(43);
    assert_eq!(store.status(42).status, TransactionStatus::Initialize);
    assert_eq!(store.status(43).status, TransactionStatus::Initialize);
    store.open(42);
    assert_eq!(store.status(42).status, TransactionStatus::Initialize);
}

#[test]
fn reopening_resets_status() {
    let mut store = MockPaymentStore::new();
    store.open(5);
    store.accept(5);
    store.open(5);
    assert_eq!(store.status(5).status, TransactionStatus::Initialize);
}

#[test]
fn mock_payment_links() {
    let a = mock_payment_init(12, PaymentMethod::MockAuto, "25.00");
    assert_eq!(a.tx_id, 12);
    assert_eq!(a.status, TransactionStatus::Initialize);
    assert_eq!(a.display_qr, None);
    assert_eq!(a.display_url.as_deref(), Some("https://example.com/mock-auto?tx_id=12"));
    let m = mock_payment_init(3, PaymentMethod::MockManual, "1.00");
    assert_eq!(m.display_url.as_deref(), Some("https://example.com/mock-manual?tx_id=3"));
    let p = mock_payment_init(-4, PaymentMethod::PayPal, "1.00");
    assert_eq!(
        p.display_url.as_deref(),
        Some("https://example.com/mock-pay?provider=paypal&tx_id=-4")
    );
    let c = mock_payment_init(9, PaymentMethod::CreditCard, "1.00");
    assert_eq!(c.display_url.as_deref(), Some("https://example.com/mock-pay?provider=card&tx_id=9"));
    let u = mock_payment_init(0, PaymentMethod::Unknown, "1.00");
    assert_eq!(u.display_url.as_deref(), Some("https://example.com/mock-pay?provider=card&tx_id=0"));
}

#[test]
fn mock_payment_crypto_qr() {
    let q = mock_payment_init(2147483647, PaymentMethod::Crypto, "10.50");
    assert_eq!(q.display_url, None);
    assert_eq!(q.display_qr.as_deref(), Some("MOCK-QR:tx_id=2147483647;amount=10.50"));
}

#[test]
fn auto_confirm_delay_bounds() {
    assert_eq!(auto_confirm_delay_ms(0), 2000);
    assert_eq!(auto_confirm_delay_ms(999), 2999);
    assert_eq!(auto_confirm_delay_ms(3001), 2000);
    assert_eq!(auto_confirm_delay_ms(3000), 5000);
}

#[test]
fn donor_name_defaults_to_anonymous() {
    assert_eq!(normalize_donor_name(String::new()), "Anonymous");
    assert_eq!(normalize_donor_name(" \t\n ".to_string()), "Anonymous");
    assert_eq!(normalize_donor_name("\u{3000}\u{a0}".to_string()), "Anonymous");
    assert_eq!(normalize_donor_name(" Kim ".to_string()), " Kim ");
}

#[test]
fn blank_message_is_dropped() {
    assert_eq!(normalize_message("".to_string()), None);
    assert_eq!(normalize_message("  \r\n".to_string()), None);
    assert_eq!(normalize_message(" gg ".to_string()), Some(" gg ".to_string()));
}

#[test]
fn payment_panels() {
    assert_eq!(payment_panel(TransactionStatus::ReadyForDisplay, PaymentMethod::MockManual), PaymentPanel::Success);
    assert_eq!(payment_panel(TransactionStatus::Rejected, PaymentMethod::MockAuto), PaymentPanel::Failed);
    assert_eq!(payment_panel(TransactionStatus::Initialize, PaymentMethod::MockManual), PaymentPanel::ManualControls);
    assert_eq!(payment_panel(TransactionStatus::Initialize, PaymentMethod::MockAuto), PaymentPanel::Waiting);
    assert_eq!(payment_panel(TransactionStatus::Displayed, PaymentMethod::Crypto), PaymentPanel::Waiting);
}
