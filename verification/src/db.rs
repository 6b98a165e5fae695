//! The records stored in the database: payment methods, the status of a
//! donation, and a streamer's profile; with the text that each enum is
//! stored and displayed as.
use vstd::prelude::*;
use crate::text::{owned, str_eq};

verus! {

/// How a donor pays for a donation.
#[derive(Clone, Copy, Debug, PartialEq, Eq, Hash, Structural)]
pub enum PaymentMethod {
    MockAuto,
    MockManual,
    CreditCard,
    Crypto,
    PayPal,
    Unknown,
}

/// The life cycle of a donation: created, paid and waiting for the overlay,
/// shown on the overlay, or refused.
#[derive(Clone, Copy, Debug, PartialEq, Eq, Hash, Structural)]
pub enum TransactionStatus {
    Initialize,
    ReadyForDisplay,
    Displayed,
    Rejected,
    Unknown,
}

impl PaymentMethod {
    /// The text a payment method is displayed as and stored as in the
    /// database.
    pub open spec fn label(self) -> Seq<char> {
        match self {
            PaymentMethod::MockAuto => "Mock Auto"@,
            PaymentMethod::MockManual => "Mock Manual"@,
            PaymentMethod::CreditCard => "Credit Card"@,
            PaymentMethod::Crypto => "Crypto"@,
            PaymentMethod::PayPal => "PayPal"@,
            PaymentMethod::Unknown => "Unknown"@,
        }
    }

    /// The payment method that a stored text denotes; any text that is not
    /// the label of a known method denotes `Unknown`.
    pub open spec fn parse(s: Seq<char>) -> PaymentMethod {
        if s == "Mock Auto"@ {
            PaymentMethod::MockAuto
        } else if s == "Mock Manual"@ {
            PaymentMethod::MockManual
        } else if s == "Credit Card"@ {
            PaymentMethod::CreditCard
        } else if s == "Crypto"@ {
            PaymentMethod::Crypto
        } else if s == "PayPal"@ {
            PaymentMethod::PayPal
        } else {
            PaymentMethod::Unknown
        }
    }

    /// The label of the payment method (what `Display` writes).
    pub fn to_string(&self) -> (s: String)
        ensures
            s@ == self.label(),
    {
        match self {
            PaymentMethod::MockAuto => owned("Mock Auto"),
            PaymentMethod::MockManual => owned("Mock Manual"),
            PaymentMethod::CreditCard => owned("Credit Card"),
            PaymentMethod::Crypto => owned("Crypto"),
            PaymentMethod::PayPal => owned("PayPal"),
            PaymentMethod::Unknown => owned("Unknown"),
        }
    }

    /// Reads a payment method back from its stored text.
    pub fn decode(s: &str) -> (m: PaymentMethod)
        ensures
            m == PaymentMethod::parse(s@),
    {
        if str_eq(s, "Mock Auto") {
            PaymentMethod::MockAuto
        } else if str_eq(s, "Mock Manual") {
            PaymentMethod::MockManual
        } else if str_eq(s, "Credit Card") {
            PaymentMethod::CreditCard
        } else if str_eq(s, "Crypto") {
            PaymentMethod::Crypto
        } else if str_eq(s, "PayPal") {
            PaymentMethod::PayPal
        } else {
            PaymentMethod::Unknown
        }
    }

    /// The icon shown beside the method on the donation form.
    pub fn icon(&self) -> (s: &'static str)
        ensures
            s@ == (if *self == PaymentMethod::MockAuto {
                "autorenew"@
            } else {
                "pan_tool"@
            }),
    {
        if *self == PaymentMethod::MockAuto {
            "autorenew"
        } else {
            "pan_tool"
        }
    }

    /// Whether a payment by this method completes on its own after a short
    /// delay; a manual mock payment waits for the donor to accept or reject it.
    pub fn confirms_automatically(&self) -> (b: bool)
        ensures
            b == (*self != PaymentMethod::MockManual),
    {
        *self != PaymentMethod::MockManual
    }
}

impl TransactionStatus {
    /// The text a status is displayed as and stored as in the database.
    pub open spec fn label(self) -> Seq<char> {
        match self {
            TransactionStatus::Initialize => "INITIALIZE"@,
            TransactionStatus::ReadyForDisplay => "READY_FOR_DISPLAY"@,
            TransactionStatus::Displayed => "DISPLAYED"@,
            TransactionStatus::Rejected => "REJECTED"@,
            TransactionStatus::Unknown => "UNKNOWN"@,
        }
    }

    /// The status that a stored text denotes; any other text is `Unknown`.
    pub open spec fn parse(s: Seq<char>) -> TransactionStatus {
        if s == "INITIALIZE"@ {
            TransactionStatus::Initialize
        } else if s == "READY_FOR_DISPLAY"@ {
            TransactionStatus::ReadyForDisplay
        } else if s == "DISPLAYED"@ {
            TransactionStatus::Displayed
        } else if s == "REJECTED"@ {
            TransactionStatus::Rejected
        } else {
            TransactionStatus::Unknown
        }
    }

    /// The label of the status (what `Display` writes).
    pub fn to_string(&self) -> (s: String)
        ensures
            s@ == self.label(),
    {
        match self {
            TransactionStatus::Initialize => owned("INITIALIZE"),
            TransactionStatus::ReadyForDisplay => owned("READY_FOR_DISPLAY"),
            TransactionStatus::Displayed => owned("DISPLAYED"),
            TransactionStatus::Rejected => owned("REJECTED"),
            TransactionStatus::Unknown => owned("UNKNOWN"),
        }
    }

    /// Reads a status back from its stored text.
    pub fn decode(s: &str) -> (t: TransactionStatus)
        ensures
            t == TransactionStatus::parse(s@),
    {
        if str_eq(s, "INITIALIZE") {
            TransactionStatus::Initialize
        } else if str_eq(s, "READY_FOR_DISPLAY") {
            TransactionStatus::ReadyForDisplay
        } else if str_eq(s, "DISPLAYED") {
            TransactionStatus::Displayed
        } else if str_eq(s, "REJECTED") {
            TransactionStatus::Rejected
        } else {
            TransactionStatus::Unknown
        }
    }

    /// Whether the donation is paid and waits to be shown on the overlay.
    pub fn is_ready_for_display(&self) -> (b: bool)
        ensures
            b == (*self == TransactionStatus::ReadyForDisplay),
    {
        *self == TransactionStatus::ReadyForDisplay
    }
}

/// A stored payment method reads back as itself.
pub proof fn law_payment_method_round_trip(m: PaymentMethod)
    ensures
        PaymentMethod::parse(m.label()) == m,
{
    reveal_strlit("Mock Auto");
    reveal_strlit("Mock Manual");
    reveal_strlit("Credit Card");
    reveal_strlit("Crypto");
    reveal_strlit("PayPal");
    reveal_strlit("Unknown");
    assert("Mock Auto"@ != "Mock Manual"@) by {
        assert("Mock Auto"@.len() != "Mock Manual"@.len());
    }
    assert("Mock Auto"@ != "Credit Card"@) by {
        assert("Mock Auto"@[0] != "Credit Card"@[0]);
    }
    assert("Mock Manual"@ != "Credit Card"@) by {
        assert("Mock Manual"@[0] != "Credit Card"@[0]);
    }
    assert("Crypto"@ != "Mock Auto"@) by {
        assert("Crypto"@.len() != "Mock Auto"@.len());
    }
    assert("Crypto"@ != "Mock Manual"@) by {
        assert("Crypto"@.len() != "Mock Manual"@.len());
    }
    assert("Crypto"@ != "Credit Card"@) by {
        assert("Crypto"@.len() != "Credit Card"@.len());
    }
    assert("PayPal"@ != "Mock Auto"@) by {
        assert("PayPal"@.len() != "Mock Auto"@.len());
    }
    assert("PayPal"@ != "Mock Manual"@) by {
        assert("PayPal"@.len() != "Mock Manual"@.len());
    }
    assert("PayPal"@ != "Credit Card"@) by {
        assert("PayPal"@.len() != "Credit Card"@.len());
    }
    assert("PayPal"@ != "Crypto"@) by {
        assert("PayPal"@[0] != "Crypto"@[0]);
    }
    assert("Unknown"@ != "Mock Auto"@) by {
        assert("Unknown"@.len() != "Mock Auto"@.len());
    }
    assert("Unknown"@ != "Mock Manual"@) by {
        assert("Unknown"@.len() != "Mock Manual"@.len());
    }
    assert("Unknown"@ != "Credit Card"@) by {
        assert("Unknown"@.len() != "Credit Card"@.len());
    }
    assert("Unknown"@ != "Crypto"@) by {
        assert("Unknown"@.len() != "Crypto"@.len());
    }
    assert("Unknown"@ != "PayPal"@) by {
        assert("Unknown"@.len() != "PayPal"@.len());
    }
}

/// A stored status reads back as itself.
pub proof fn law_transaction_status_round_trip(t: TransactionStatus)
    ensures
        TransactionStatus::parse(t.label()) == t,
{
    reveal_strlit("INITIALIZE");
    reveal_strlit("READY_FOR_DISPLAY");
    reveal_strlit("DISPLAYED");
    reveal_strlit("REJECTED");
    reveal_strlit("UNKNOWN");
    assert("INITIALIZE"@ != "READY_FOR_DISPLAY"@) by {
        assert("INITIALIZE"@.len() != "READY_FOR_DISPLAY"@.len());
    }
    assert("INITIALIZE"@ != "DISPLAYED"@) by {
        assert("INITIALIZE"@.len() != "DISPLAYED"@.len());
    }
    assert("READY_FOR_DISPLAY"@ != "DISPLAYED"@) by {
        assert("READY_FOR_DISPLAY"@.len() != "DISPLAYED"@.len());
    }
    assert("REJECTED"@ != "INITIALIZE"@) by {
        assert("REJECTED"@.len() != "INITIALIZE"@.len());
    }
    assert("REJECTED"@ != "READY_FOR_DISPLAY"@) by {
        assert("REJECTED"@.len() != "READY_FOR_DISPLAY"@.len());
    }
    assert("REJECTED"@ != "DISPLAYED"@) by {
        assert("REJECTED"@[0] != "DISPLAYED"@[0]);
    }
    assert("UNKNOWN"@ != "INITIALIZE"@) by {
        assert("UNKNOWN"@.len() != "INITIALIZE"@.len());
    }
    assert("UNKNOWN"@ != "READY_FOR_DISPLAY"@) by {
        assert("UNKNOWN"@.len() != "READY_FOR_DISPLAY"@.len());
    }
    assert("UNKNOWN"@ != "DISPLAYED"@) by {
        assert("UNKNOWN"@.len() != "DISPLAYED"@.len());
    }
    assert("UNKNOWN"@ != "REJECTED"@) by {
        assert("UNKNOWN"@.len() != "REJECTED"@.len());
    }
}

/// Distinct payment methods are stored as distinct texts.
pub proof fn law_payment_method_labels_distinct(a: PaymentMethod, b: PaymentMethod)
    ensures
        a.label() == b.label() ==> a == b,
{
    law_payment_method_round_trip(a);
    law_payment_method_round_trip(b);
}

/// Distinct statuses are stored as distinct texts.
pub proof fn law_transaction_status_labels_distinct(a: TransactionStatus, b: TransactionStatus)
    ensures
        a.label() == b.label() ==> a == b,
{
    law_transaction_status_round_trip(a);
    law_transaction_status_round_trip(b);
}

/// A streamer's public profile and overlay settings.
#[derive(Clone, Debug, PartialEq)]
pub struct DbStreamer {
    pub id: i32,
    pub username: String,
    pub display_name: String,
    pub avatar_url: String,
    pub bio: String,
    pub is_live: bool,
    pub user_id: Option<String>,
    pub overlay_token: String,
    pub active_overlay_session: Option<String>,
    pub payment_methods: Vec<PaymentMethod>,
    pub overlay_paused: bool,
    pub overlay_sound_enabled: bool,
}

/// The payment methods a streamer offers when nothing else is stored:
/// automatic and manual mock payments.
pub fn default_payment_methods() -> (v: Vec<PaymentMethod>)
    ensures
        v@ == seq![PaymentMethod::MockAuto, PaymentMethod::MockManual],
{
    let mut v = Vec::new();
    v.push(PaymentMethod::MockAuto);
    v.push(PaymentMethod::MockManual);
    v
}

/// The payment methods saved from the payments page's two checkboxes, in
/// the page's order: automatic mock payments first, then manual ones.
pub fn selected_payment_methods(mock_auto: bool, mock_manual: bool) -> (v: Vec<PaymentMethod>)
    ensures
        v@ == (if mock_auto {
            seq![PaymentMethod::MockAuto]
        } else {
            Seq::<PaymentMethod>::empty()
        }) + (if mock_manual {
            seq![PaymentMethod::MockManual]
        } else {
            Seq::<PaymentMethod>::empty()
        }),
{
    let mut v = Vec::new();
    if mock_auto {
        v.push(PaymentMethod::MockAuto);
    }
    if mock_manual {
        v.push(PaymentMethod::MockManual);
    }
    proof {
        if mock_auto && mock_manual {
            assert(v@ =~= seq![PaymentMethod::MockAuto] + seq![PaymentMethod::MockManual]);
        } else if mock_auto {
            assert(v@ =~= seq![PaymentMethod::MockAuto] + Seq::<PaymentMethod>::empty());
        } else if mock_manual {
            assert(v@ =~= Seq::<PaymentMethod>::empty() + seq![PaymentMethod::MockManual]);
        } else {
            assert(v@ =~= Seq::<PaymentMethod>::empty() + Seq::<PaymentMethod>::empty());
        }
    }
    v
}

/// Whether a streamer offers the given payment method.
pub fn offers_method(methods: &Vec<PaymentMethod>, m: PaymentMethod) -> (b: bool)
    ensures
        b == methods@.contains(m),
{
    let mut i: usize = 0;
    while i < methods.len()
        invariant
            i <= methods@.len(),
            forall|j: int| 0 <= j < i ==> methods@[j] != m,
        decreases methods@.len() - i,
    {
        if methods[i] == m {
            return true;
        }
        i = i + 1;
    }
    false
}

} // verus!
