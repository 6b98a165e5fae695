//! Donations and the mock payment flow: normalising what a donor typed,
//! the payment link or QR code shown to the donor, the in-memory record of
//! each mock payment's status, and the panel the donation form shows.
use vstd::prelude::*;
use std::collections::HashMap;
use crate::db::{PaymentMethod, TransactionStatus};
use crate::text::{dec_int, is_blank, is_blank_seq, owned, push_signed_decimal};

verus! {

broadcast use vstd::std_specs::hash::group_hash_axioms;

/// The status that the mock payment service keeps for one donation.
#[derive(Clone, Copy, Debug, PartialEq, Eq, Structural)]
pub struct MockTxState {
    pub status: TransactionStatus,
}

/// The mock payment service's record of each donation it was asked to
/// collect, keyed by transaction id.
pub struct MockPaymentStore {
    txs: HashMap<i32, MockTxState>,
}

impl View for MockPaymentStore {
    type V = Map<i32, TransactionStatus>;

    closed spec fn view(&self) -> Map<i32, TransactionStatus> {
        self.txs@.map_values(|s: MockTxState| s.status)
    }
}

/// The store after a payment for `tx_id` is opened.
pub open spec fn spec_open(m: Map<i32, TransactionStatus>, tx_id: i32) -> Map<
    i32,
    TransactionStatus,
> {
    m.insert(tx_id, TransactionStatus::Initialize)
}

/// The store after the payment for `tx_id` is given status `s`, if the
/// store knows that payment; otherwise the store is unchanged.
pub open spec fn spec_settle(
    m: Map<i32, TransactionStatus>,
    tx_id: i32,
    s: TransactionStatus,
) -> Map<i32, TransactionStatus> {
    if m.contains_key(tx_id) {
        m.insert(tx_id, s)
    } else {
        m
    }
}

/// The status that polling reports for `tx_id`: the recorded one, or
/// `Initialize` for a payment the store does not know.
pub open spec fn spec_status(m: Map<i32, TransactionStatus>, tx_id: i32) -> TransactionStatus {
    if m.contains_key(tx_id) {
        m[tx_id]
    } else {
        TransactionStatus::Initialize
    }
}

impl MockPaymentStore {
    /// An empty store.
    pub fn new() -> (s: MockPaymentStore)
        ensures
            s@ == Map::<i32, TransactionStatus>::empty(),
    {
        let s = MockPaymentStore { txs: HashMap::new() };
        assert(s@ =~= Map::<i32, TransactionStatus>::empty());
        s
    }

    /// Records a new payment for `tx_id`, waiting to be paid.
    pub fn open(&mut self, tx_id: i32)
        ensures
            final(self)@ == spec_open(old(self)@, tx_id),
    {
        self.txs.insert(tx_id, MockTxState { status: TransactionStatus::Initialize });
        assert(final(self)@ =~= spec_open(old(self)@, tx_id));
    }

    /// Sets the status of a known payment; an unknown `tx_id` is ignored.
    fn settle(&mut self, tx_id: i32, status: TransactionStatus)
        ensures
            final(self)@ == spec_settle(old(self)@, tx_id, status),
    {
        if self.txs.contains_key(&tx_id) {
            self.txs.insert(tx_id, MockTxState { status });
            assert(final(self)@ =~= spec_settle(old(self)@, tx_id, status));
        } else {
            assert(final(self)@ =~= spec_settle(old(self)@, tx_id, status));
        }
    }

    /// The payment was made (automatically after the delay, or accepted by
    /// the donor): the donation is ready for the overlay.
    pub fn accept(&mut self, tx_id: i32)
        ensures
            final(self)@ == spec_settle(old(self)@, tx_id, TransactionStatus::ReadyForDisplay),
    {
        self.settle(tx_id, TransactionStatus::ReadyForDisplay);
    }

    /// The donor refused the payment.
    pub fn reject(&mut self, tx_id: i32)
        ensures
            final(self)@ == spec_settle(old(self)@, tx_id, TransactionStatus::Rejected),
    {
        self.settle(tx_id, TransactionStatus::Rejected);
    }

    /// The status of the payment for `tx_id`, as the donation page polls it.
    pub fn status(&self, tx_id: i32) -> (r: MockPaymentStatus)
        ensures
            r.tx_id == tx_id,
            r.status == spec_status(self@, tx_id),
    {
        let status = match self.txs.get(&tx_id) {
            Some(s) => s.status,
            None => TransactionStatus::Initialize,
        };
        MockPaymentStatus { tx_id, status }
    }
}

/// A newly opened payment reads `Initialize`; once accepted it reads
/// `ReadyForDisplay`, once rejected `Rejected`; the last settlement wins;
/// and a payment the store never opened reads `Initialize` and is not
/// created by accepting or rejecting it.
pub proof fn law_mock_payment_lifecycle(m: Map<i32, TransactionStatus>, tx: i32, other: i32)
    requires
        tx != other,
    ensures
        spec_status(spec_open(m, tx), tx) == TransactionStatus::Initialize,
        spec_status(spec_settle(spec_open(m, tx), tx, TransactionStatus::ReadyForDisplay), tx)
            == TransactionStatus::ReadyForDisplay,
        spec_status(spec_settle(spec_open(m, tx), tx, TransactionStatus::Rejected), tx)
            == TransactionStatus::Rejected,
        spec_status(
            spec_settle(
                spec_settle(spec_open(m, tx), tx, TransactionStatus::ReadyForDisplay),
                tx,
                TransactionStatus::Rejected,
            ),
            tx,
        ) == TransactionStatus::Rejected,
        spec_status(spec_open(m, tx), other) == spec_status(m, other),
        spec_status(spec_settle(m, tx, TransactionStatus::Rejected), other) == spec_status(
            m,
            other,
        ),
        !m.contains_key(tx) ==> spec_settle(m, tx, TransactionStatus::ReadyForDisplay) == m,
        !m.contains_key(tx) ==> spec_status(m, tx) == TransactionStatus::Initialize,
{
}

/// The result of opening a mock payment: the transaction, its status, and
/// either a payment link or a QR payload for the donor.
#[derive(Clone, Debug, PartialEq)]
pub struct MockPaymentInit {
    pub tx_id: i32,
    pub status: TransactionStatus,
    pub display_qr: Option<String>,
    pub display_url: Option<String>,
}

/// The status of a mock payment as the donation page polls it.
#[derive(Clone, Copy, Debug, PartialEq, Eq, Structural)]
pub struct MockPaymentStatus {
    pub tx_id: i32,
    pub status: TransactionStatus,
}

/// The payment link shown for `method`, when the method uses a link.
pub open spec fn mock_payment_url(method: PaymentMethod, tx_id: i32) -> Seq<char> {
    match method {
        PaymentMethod::MockAuto => "https://example.com/mock-auto?tx_id="@ + dec_int(tx_id as int),
        PaymentMethod::MockManual => "https://example.com/mock-manual?tx_id="@ + dec_int(
            tx_id as int,
        ),
        PaymentMethod::PayPal => "https://example.com/mock-pay?provider=paypal&tx_id="@ + dec_int(
            tx_id as int,
        ),
        _ => "https://example.com/mock-pay?provider=card&tx_id="@ + dec_int(tx_id as int),
    }
}

/// The QR payload shown for a crypto payment; `amount` is the amount as
/// written with two decimals.
pub open spec fn mock_payment_qr(tx_id: i32, amount: Seq<char>) -> Seq<char> {
    "MOCK-QR:tx_id="@ + dec_int(tx_id as int) + ";amount="@ + amount
}

/// What the donor is shown after a mock payment for `tx_id` is opened: a QR
/// payload for crypto, a payment link for every other method; the payment
/// starts in `Initialize`. `amount_2dp` is the donated amount written with
/// two decimals.
pub fn mock_payment_init(tx_id: i32, method: PaymentMethod, amount_2dp: &str) -> (r:
    MockPaymentInit)
    ensures
        r.tx_id == tx_id,
        r.status == TransactionStatus::Initialize,
        method == PaymentMethod::Crypto ==> (r.display_url is None && (r.display_qr matches Some(q)
            && q@ == mock_payment_qr(tx_id, amount_2dp@))),
        method != PaymentMethod::Crypto ==> (r.display_qr is None && (r.display_url matches Some(u)
            && u@ == mock_payment_url(method, tx_id))),
{
    match method {
        PaymentMethod::Crypto => {
            let mut q = owned("MOCK-QR:tx_id=");
            push_signed_decimal(&mut q, tx_id as i64);
            q.append(";amount=");
            q.append(amount_2dp);
            MockPaymentInit {
                tx_id,
                status: TransactionStatus::Initialize,
                display_qr: Some(q),
                display_url: None,
            }
        },
        _ => {
            let mut u = match method {
                PaymentMethod::MockAuto => owned("https://example.com/mock-auto?tx_id="),
                PaymentMethod::MockManual => owned("https://example.com/mock-manual?tx_id="),
                PaymentMethod::PayPal => owned(
                    "https://example.com/mock-pay?provider=paypal&tx_id=",
                ),
                _ => owned("https://example.com/mock-pay?provider=card&tx_id="),
            };
            push_signed_decimal(&mut u, tx_id as i64);
            MockPaymentInit {
                tx_id,
                status: TransactionStatus::Initialize,
                display_qr: None,
                display_url: Some(u),
            }
        },
    }
}

/// How long, in milliseconds, an automatic mock payment takes to complete:
/// two seconds plus up to three more, taken from the sub-second part of the
/// clock.
pub fn auto_confirm_delay_ms(subsec_millis: u32) -> (d: u64)
    ensures
        d == 2000 + (subsec_millis as u64) % 3001,
        2000 <= d <= 5000,
{
    2000u64 + (subsec_millis as u64) % 3001u64
}

/// When an opened mock payment completes by itself: a manual mock payment
/// never does (the donor accepts or rejects it); any other completes after
/// `auto_confirm_delay_ms` milliseconds.
pub open spec fn auto_confirm_after(method: PaymentMethod, subsec_millis: int) -> Option<int> {
    if method == PaymentMethod::MockManual {
        None
    } else {
        Some(2000 + subsec_millis % 3001)
    }
}

/// The delay after which the server completes a newly opened mock payment
/// by itself, `None` for a manual one.
pub fn auto_confirm_schedule(method: PaymentMethod, subsec_millis: u32) -> (r: Option<u64>)
    ensures
        r matches Some(d) ==> auto_confirm_after(method, subsec_millis as int) == Some(d as int),
        r is None ==> auto_confirm_after(method, subsec_millis as int) is None,
{
    if method == PaymentMethod::MockManual {
        None
    } else {
        Some(auto_confirm_delay_ms(subsec_millis))
    }
}

/// Whether the donation page stops polling a payment in `status`: once it
/// is ready for the overlay.
pub fn payment_poll_done(status: TransactionStatus) -> (b: bool)
    ensures
        b == (status == TransactionStatus::ReadyForDisplay),
{
    status == TransactionStatus::ReadyForDisplay
}

/// An opened mock payment with any method other than manual is completed
/// by the server after a delay of at least two seconds and, for a clock
/// whose sub-second part is below one second, under three: from then on it
/// reads `ReadyForDisplay` and the donation page stops polling. A manual
/// one is never completed by the server: until the donor accepts or
/// rejects it, it reads `Initialize`.
pub proof fn law_mock_payment_confirmation(
    m: Map<i32, TransactionStatus>,
    tx: i32,
    method: PaymentMethod,
    subsec_millis: int,
)
    requires
        0 <= subsec_millis,
    ensures
        method != PaymentMethod::MockManual ==> (auto_confirm_after(method, subsec_millis) matches Some(
            d,
        ) && 2000 <= d && (subsec_millis < 1000 ==> d < 3000)),
        method != PaymentMethod::MockManual ==> spec_status(
            spec_settle(spec_open(m, tx), tx, TransactionStatus::ReadyForDisplay),
            tx,
        ) == TransactionStatus::ReadyForDisplay,
        method == PaymentMethod::MockManual ==> auto_confirm_after(method, subsec_millis) is None
            && spec_status(spec_open(m, tx), tx) == TransactionStatus::Initialize,
{
}

/// The donor name stored with a donation: the typed name, or `Anonymous`
/// when it is empty or only whitespace.
pub fn normalize_donor_name(donor_name: String) -> (r: String)
    ensures
        is_blank_seq(donor_name@) ==> r@ == "Anonymous"@,
        !is_blank_seq(donor_name@) ==> r@ == donor_name@,
{
    if is_blank(donor_name.as_str()) {
        owned("Anonymous")
    } else {
        donor_name
    }
}

/// The message stored with a donation: none when the typed message is empty
/// or only whitespace.
pub fn normalize_message(message: String) -> (r: Option<String>)
    ensures
        is_blank_seq(message@) ==> r is None,
        !is_blank_seq(message@) ==> (r matches Some(m) && m@ == message@),
{
    if is_blank(message.as_str()) {
        None
    } else {
        Some(message)
    }
}

/// What the donation form shows while a mock payment is open.
#[derive(Clone, Copy, Debug, PartialEq, Eq, Structural)]
pub enum PaymentPanel {
    /// The payment went through.
    Success,
    /// The payment was rejected.
    Failed,
    /// Accept and reject buttons for a manual mock payment.
    ManualControls,
    /// Waiting for an automatic payment to complete.
    Waiting,
}

/// The panel for a payment in `status` made with `method`.
pub fn payment_panel(status: TransactionStatus, method: PaymentMethod) -> (p: PaymentPanel)
    ensures
        p == (if status == TransactionStatus::ReadyForDisplay {
            PaymentPanel::Success
        } else if status == TransactionStatus::Rejected {
            PaymentPanel::Failed
        } else if method == PaymentMethod::MockManual {
            PaymentPanel::ManualControls
        } else {
            PaymentPanel::Waiting
        }),
{
    if status == TransactionStatus::ReadyForDisplay {
        PaymentPanel::Success
    } else if status == TransactionStatus::Rejected {
        PaymentPanel::Failed
    } else if method == PaymentMethod::MockManual {
        PaymentPanel::ManualControls
    } else {
        PaymentPanel::Waiting
    }
}

} // verus!
