use open_donate::db::{default_payment_methods, offers_method, PaymentMethod, TransactionStatus};

const ALL_METHODS: [PaymentMethod; 6] = [
    PaymentMethod::MockAuto,
    PaymentMethod::MockManual,
    PaymentMethod::CreditCard,
    PaymentMethod::Crypto,
    PaymentMethod::PayPal,
    PaymentMethod::Unknown,
];

const ALL_STATUSES: [TransactionStatus; 5] = [
    TransactionStatus::Initialize,
    TransactionStatus::ReadyForDisplay,
    TransactionStatus::Displayed,
    TransactionStatus::Rejected,
    TransactionStatus::Unknown,
];

#[test]
fn payment_method_labels() {
    assert_eq!(PaymentMethod::MockAuto.to_string(), "Mock Auto");
    assert_eq!(PaymentMethod::MockManual.to_string(), "Mock Manual");
    assert_eq!(PaymentMethod::CreditCard.to_string(), "Credit Card");
    assert_eq!(PaymentMethod::Crypto.to_string(), "Crypto");
    assert_eq!(PaymentMethod::PayPal.to_string(), "PayPal");
    assert_eq!(PaymentMethod::Unknown.to_string(), "Unknown");
}

#[test]
fn payment_method_round_trip() {
    for m in ALL_METHODS {
        assert_eq!(PaymentMethod::decode(&m.to_string()), m);
    }
}

#[test]
fn payment_method_unknown_texts() {
    assert_eq!(PaymentMethod::decode("test_mock"), PaymentMethod::Unknown);
    assert_eq!(PaymentMethod::decode("mock auto"), PaymentMethod::Unknown);
    assert_eq!(PaymentMethod::decode(""), PaymentMethod::Unknown);
    assert_eq!(PaymentMethod::decode("PayPal "), PaymentMethod::Unknown);
}

#[test]
fn transaction_status_labels() {
    assert_eq!(TransactionStatus::Initialize.to_string(), "INITIALIZE");
    assert_eq!(TransactionStatus::ReadyForDisplay.to_string(), "READY_FOR_DISPLAY");
    assert_eq!(TransactionStatus::Displayed.to_string(), "DISPLAYED");
    assert_eq!(TransactionStatus::Rejected.to_string(), "REJECTED");
    assert_eq!(TransactionStatus::Unknown.to_string(), "UNKNOWN");
}

#[test]
fn transaction_status_round_trip() {
    for s in ALL_STATUSES {
        assert_eq!(TransactionStatus::decode(&s.to_string()), s);
    }
    assert_eq!(TransactionStatus::decode("ready_for_display"), TransactionStatus::Unknown);
}

#[test]
fn labels_are_distinct() {
    for a in ALL_METHODS {
        for b in ALL_METHODS {
            assert_eq!(a.to_string() == b.to_string(), a == b);
        }
    }
    for a in ALL_STATUSES {
        for b in ALL_STATUSES {
            assert_eq!(a.to_string() == b.to_string(), a == b);
        }
    }
}

#[test]
fn payment_method_icons_and_confirmation() {
    assert_eq!(PaymentMethod::MockAuto.icon(), "autorenew");
    assert_eq!(PaymentMethod::MockManual.icon(), "pan_tool");
    assert_eq!(PaymentMethod::Crypto.icon(), "pan_tool");
    assert!(PaymentMethod::MockAuto.confirms_automatically());
    assert!(!PaymentMethod::MockManual.confirms_automatically());
    assert!(PaymentMethod::PayPal.confirms_automatically());
}

#[test]
fn ready_for_display_status() {
    assert!(TransactionStatus::ReadyForDisplay.is_ready_for_display());
    assert!(!TransactionStatus::Displayed.is_ready_for_display());
    assert!(!TransactionStatus::Initialize.is_ready_for_display());
}

#[test]
fn default_methods_are_mock_auto_and_manual() {
    let v = default_payment_methods();
    assert_eq!(v, vec![PaymentMethod::MockAuto, PaymentMethod::MockManual]);
    assert!(offers_method(&v, PaymentMethod::MockManual));
    assert!(!offers_method(&v, PaymentMethod::Crypto));
    assert!(!offers_method(&vec![], PaymentMethod::MockAuto));
}
